use vstd::prelude::*;
use vstd::string::*;
use crate::text::chars_of;

verus! {

/// Declares `std::io::Error`, carried unopened by `PromptError::InputError`.
#[verifier::external_type_specification]
#[verifier::external_body]
pub struct ExIoError(std::io::Error);

/// Why a prompt gave no answer.
#[derive(Debug)]
pub enum PromptError {
    /// The answer was rejected; the message says why.
    ValidateError(String),
    /// A state that the prompting loop cannot reach.
    InconcievableError(),
    /// Reading the answer failed.
    InputError(std::io::Error),
}

/// `s` without one trailing `'\n'`, then without one trailing `'\r'`, and
/// what was removed, in the order of removal.
pub open spec fn chomp_spec(s: Seq<char>) -> (Seq<char>, Seq<char>) {
    let a = if s.len() > 0 && s.last() == '\n' {
        s.drop_last()
    } else {
        s
    };
    let ra = if s.len() > 0 && s.last() == '\n' {
        seq!['\n']
    } else {
        Seq::<char>::empty()
    };
    if a.len() > 0 && a.last() == '\r' {
        (a.drop_last(), ra + seq!['\r'])
    } else {
        (a, ra)
    }
}

/// Removes a trailing line end from `s` and returns what was removed.
pub fn chomp(s: &mut String) -> (r: String)
    ensures
        final(s)@ == chomp_spec(old(s)@).0,
        r@ == chomp_spec(old(s)@).1,
{
    proof {
        reveal_strlit("\n");
        reveal_strlit("\r");
    }
    let cs = chars_of(s.as_str());
    let mut k = cs.len();
    let mut removed = String::new();
    if k > 0 && cs[k - 1] == '\n' {
        k = k - 1;
        removed.append("\n");
    }
    if k > 0 && cs[k - 1] == '\r' {
        k = k - 1;
        removed.append("\r");
    }
    let kept = String::from_str(s.as_str().substring_char(0, k));
    proof {
        let a = if cs@.len() > 0 && cs@.last() == '\n' {
            cs@.drop_last()
        } else {
            cs@
        };
        assert(a =~= cs@.subrange(0, a.len() as int));
        assert(a.len() > 0 ==> a.last() == cs@[a.len() - 1]);
        assert(a.len() > 0 ==> a.drop_last() =~= cs@.subrange(0, a.len() - 1));
    }
    *s = kept;
    removed
}

/// A prompt with an optional default answer.
pub struct Prompt {
    default: Option<String>,
}

/// The question shown for `question` with default `d`: the question, the
/// default in brackets, then the line end that the question had.
pub open spec fn question_with_default(question: Seq<char>, d: Seq<char>) -> Seq<char> {
    question + " ["@ + d + "]"@ + chomp_spec(question).1
}

impl Prompt {
    /// The default answer, if any.
    pub closed spec fn spec_default(&self) -> Option<Seq<char>> {
        match self.default {
            Some(d) => Some(d@),
            None => None,
        }
    }

    /// A prompt without a default.
    pub fn new() -> (r: Prompt)
        ensures
            r.spec_default() is None,
    {
        Prompt { default: None }
    }

    /// A prompt with a default answer.
    pub fn default(default_value: String) -> (r: Prompt)
        ensures
            r.spec_default() == Some(default_value@),
    {
        Prompt { default: Some(default_value) }
    }

    /// The question to show, accounting for the default.
    pub fn question(&self, question: &str) -> (r: String)
        ensures
            self.spec_default() is None ==> r@ == question@,
            self.spec_default() matches Some(d) ==> r@ == question_with_default(question@, d),
    {
        let mut ours = String::from_str(question);
        match &self.default {
            Some(d) => {
                let chomped = chomp(&mut ours);
                let mut q = String::from_str(question);
                q.append(" [");
                q.append(d.as_str());
                q.append("]");
                q.append(chomped.as_str());
                q
            },
            None => ours,
        }
    }
}

} // verus!
