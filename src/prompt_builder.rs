use vstd::prelude::*;
use vstd::string::*;
use std::collections::VecDeque;
use crate::prompt::{chomp, chomp_spec, PromptError};
use crate::text::{trim, trimmed};

verus! {

/// The parts, with `sep` between each two.
pub open spec fn join(parts: Seq<Seq<char>>, sep: Seq<char>) -> Seq<char>
    decreases parts.len(),
{
    if parts.len() == 0 {
        Seq::<char>::empty()
    } else if parts.len() == 1 {
        parts[0]
    } else {
        join(parts.drop_last(), sep) + sep + parts.last()
    }
}

/// The views of a list of strings.
pub open spec fn views(v: Seq<String>) -> Seq<Seq<char>> {
    v.map_values(|s: String| s@)
}

/// Joins `parts` with `sep` between each two.
pub fn join_strings(parts: &Vec<String>, sep: &str) -> (r: String)
    ensures
        r@ == join(views(parts@), sep@),
{
    let mut out = String::new();
    let mut i: usize = 0;
    while i < parts.len()
        invariant
            i <= parts@.len(),
            out@ == join(views(parts@).subrange(0, i as int), sep@),
        decreases parts@.len() - i,
    {
        let ghost pre = views(parts@).subrange(0, i as int);
        let ghost post = views(parts@).subrange(0, i + 1);
        assert(post.drop_last() =~= pre);
        if i > 0 {
            out.append(sep);
        }
        out.append(parts[i].as_str());
        i = i + 1;
    }
    assert(views(parts@).subrange(0, parts@.len() as int) =~= views(parts@));
    out
}

/// The message that rejects an answer outside `choices`.
pub open spec fn choices_message(choices: Seq<Seq<char>>) -> Seq<char> {
    "Valid options are: "@ + join(choices, ", "@)
}

/// A question with optional preset choices and default answer.
pub struct Prompt {
    question: String,
    choices: Option<Vec<String>>,
    default: Option<String>,
}

impl Prompt {
    /// The question.
    pub closed spec fn spec_question(&self) -> Seq<char> {
        self.question@
    }

    /// The preset choices, if any.
    pub closed spec fn spec_choices(&self) -> Option<Seq<Seq<char>>> {
        match self.choices {
            Some(c) => Some(views(c@)),
            None => None,
        }
    }

    /// The default answer, if any.
    pub closed spec fn spec_default(&self) -> Option<Seq<char>> {
        match self.default {
            Some(d) => Some(d@),
            None => None,
        }
    }

    /// A prompt that asks `question`, with no choices and no default.
    pub fn new(question: &str) -> (r: Prompt)
        ensures
            r.spec_question() == question@,
            r.spec_choices() is None,
            r.spec_default() is None,
    {
        Prompt { question: String::from_str(question), choices: None, default: None }
    }

    /// Sets the default answer.
    pub fn default(self, default: &str) -> (r: Prompt)
        ensures
            r.spec_question() == self.spec_question(),
            r.spec_choices() == self.spec_choices(),
            r.spec_default() == Some(default@),
    {
        Prompt { default: Some(String::from_str(default)), ..self }
    }

    /// Sets the preset choices.
    pub fn choices(self, choices: Vec<&str>) -> (r: Prompt)
        ensures
            r.spec_question() == self.spec_question(),
            r.spec_default() == self.spec_default(),
            r.spec_choices() matches Some(c) && c.len() == choices@.len() && forall|i: int|
                0 <= i < c.len() ==> #[trigger] c[i] == choices@[i]@,
    {
        let mut mapped: Vec<String> = Vec::new();
        let mut i: usize = 0;
        while i < choices.len()
            invariant
                i <= choices@.len(),
                mapped@.len() == i,
                forall|j: int| 0 <= j < i ==> #[trigger] mapped@[j]@ == choices@[j]@,
            decreases choices@.len() - i,
        {
            mapped.push(String::from_str(choices[i]));
            i = i + 1;
        }
        Prompt { choices: Some(mapped), ..self }
    }

    /// The shown question built from the trimmed question `base` and its
    /// line end: the default in brackets, else the choices in brackets,
    /// then the line end and a space.
    pub open spec fn spec_decorate(&self, base: Seq<char>, line_end: Seq<char>) -> Seq<char> {
        let body = match self.spec_default() {
            Some(d) => base + " ["@ + d + "]"@,
            None => match self.spec_choices() {
                Some(c) => base + " ["@ + join(c, ", "@) + "]"@,
                None => base,
            },
        };
        body + line_end + " "@
    }

    /// Builds the shown question from a trimmed question and its line end.
    pub fn decorate(&self, base: &str, line_end: &str) -> (r: String)
        ensures
            r@ == self.spec_decorate(base@, line_end@),
    {
        let mut out = String::from_str(base);
        match &self.default {
            Some(d) => {
                out.append(" [");
                out.append(d.as_str());
                out.append("]");
            },
            None => match &self.choices {
                Some(c) => {
                    let joined = join_strings(c, ", ");
                    out.append(" [");
                    out.append(joined.as_str());
                    out.append("]");
                },
                None => {},
            },
        }
        out.append(line_end);
        out.append(" ");
        out
    }

    /// The question as shown: without its line end and surrounding white
    /// space, decorated with the default or the choices, then the line end.
    pub fn format(&self) -> (r: String)
        ensures
            r@ == self.spec_decorate(
                trimmed(chomp_spec(self.spec_question()).0),
                chomp_spec(self.spec_question()).1,
            ),
    {
        let mut ours = self.question.clone();
        let line_end = chomp(&mut ours);
        let base = trim(ours.as_str());
        self.decorate(base.as_str(), line_end.as_str())
    }

    /// What an answer `input` gives: with choices, the input if it is one of
    /// them, else a message listing them; without choices, the default when
    /// the input is empty and a default exists, else the input.
    pub open spec fn spec_answer(&self, input: Seq<char>) -> Result<Seq<char>, Seq<char>> {
        match self.spec_choices() {
            Some(c) => if c.contains(input) {
                Ok(input)
            } else {
                Err(choices_message(c))
            },
            None => match self.spec_default() {
                Some(d) => if input.len() == 0 {
                    Ok(d)
                } else {
                    Ok(input)
                },
                None => Ok(input),
            },
        }
    }

    /// Judges one answer as `spec_answer` says.
    pub fn answer(&self, input: String) -> (r: Result<String, PromptError>)
        ensures
            self.spec_answer(input@) matches Ok(a) ==> r matches Ok(s) && s@ == a,
            self.spec_answer(input@) matches Err(m) ==> r matches Err(PromptError::ValidateError(
                s,
            )) && s@ == m,
    {
        match &self.choices {
            Some(c) => {
                let mut i: usize = 0;
                while i < c.len()
                    invariant
                        i <= c@.len(),
                        self.spec_choices() == Some(views(c@)),
                        views(c@).len() == c@.len(),
                        forall|j: int| 0 <= j < i ==> #[trigger] views(c@)[j] != input@,
                    decreases c@.len() - i,
                {
                    if c[i] == input {
                        assert(views(c@)[i as int] == input@);
                        assert(views(c@).contains(input@));
                        return Ok(input);
                    }
                    i = i + 1;
                }
                let mut msg = String::from_str("Valid options are: ");
                let joined = join_strings(c, ", ");
                msg.append(joined.as_str());
                Err(PromptError::ValidateError(msg))
            },
            None => match &self.default {
                Some(d) => if input.as_str().is_empty() {
                    Ok(d.clone())
                } else {
                    Ok(input)
                },
                None => Ok(input),
            },
        }
    }
}

/// A queue of prompts, asked in the order they were added.
pub struct PromptList {
    questions: VecDeque<Prompt>,
}

impl PromptList {
    /// The prompts still to ask, first first.
    pub closed spec fn spec_questions(&self) -> Seq<Prompt> {
        self.questions@
    }

    /// An empty queue.
    pub fn new() -> (r: PromptList)
        ensures
            r.spec_questions() == Seq::<Prompt>::empty(),
    {
        PromptList { questions: VecDeque::new() }
    }

    /// Adds a prompt at the end of the queue.
    pub fn add(self, prompt: Prompt) -> (r: PromptList)
        ensures
            r.spec_questions() == self.spec_questions().push(prompt),
    {
        let mut questions = self.questions;
        questions.push_back(prompt);
        PromptList { questions }
    }

    /// Takes the first prompt off the queue.
    pub fn next(&mut self) -> (r: Option<Prompt>)
        ensures
            old(self).spec_questions().len() == 0 ==> r is None && final(self).spec_questions()
                == old(self).spec_questions(),
            old(self).spec_questions().len() > 0 ==> r == Some(old(self).spec_questions()[0])
                && final(self).spec_questions() == old(self).spec_questions().drop_first(),
    {
        self.questions.pop_front()
    }
}

} // verus!
