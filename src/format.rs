use vstd::prelude::*;
use vstd::string::*;
use crate::text::{eq_ignore_case, str_eq_ignore_case};

verus! {

/// The supported post formats.
#[derive(Debug, Clone, Copy, PartialEq, Eq, Structural)]
pub enum FormatType {
    MD,
    HTML,
}

/// The configuration token of each format.
pub open spec fn format_token(f: FormatType) -> Seq<char> {
    match f {
        FormatType::MD => seq!['m', 'd'],
        FormatType::HTML => seq!['h', 't', 'm', 'l'],
    }
}

/// The format that a configuration token names, if any (case ignored, as `fold_case` folds it).
pub open spec fn format_of(s: Seq<char>) -> Option<FormatType> {
    if eq_ignore_case(s, format_token(FormatType::MD)) {
        Some(FormatType::MD)
    } else if eq_ignore_case(s, format_token(FormatType::HTML)) {
        Some(FormatType::HTML)
    } else {
        None
    }
}

/// The message that rejects `s` as a format token.
pub open spec fn invalid_format_message(s: Seq<char>) -> Seq<char> {
    seq!['\''] + s + "' is not a valid format"@
}

impl FormatType {
    /// The configuration token of this format.
    pub fn token(&self) -> (r: &'static str)
        ensures
            r@ == format_token(*self),
    {
        proof {
            reveal_strlit("md");
            reveal_strlit("html");
        }
        match self {
            FormatType::MD => "md",
            FormatType::HTML => "html",
        }
    }

    /// Parses a configuration token; case is ignored as `fold_case` folds it.
    pub fn from_str(s: &str) -> (r: Result<FormatType, String>)
        ensures
            format_of(s@) is Some ==> r == Ok::<FormatType, String>(format_of(s@).unwrap()),
            format_of(s@) is None ==> r is Err && r->Err_0@ == invalid_format_message(s@),
    {
        proof {
            reveal_strlit("md");
            reveal_strlit("html");
        }
        if str_eq_ignore_case(s, "md") {
            Ok(FormatType::MD)
        } else if str_eq_ignore_case(s, "html") {
            Ok(FormatType::HTML)
        } else {
            let mut msg = String::from_str("'");
            msg.append(s);
            msg.append("' is not a valid format");
            proof {
                reveal_strlit("'");
            }
            Err(msg)
        }
    }
}

/// Parsing accepts exactly the case variants of a format's token, and each
/// token parses back to its own format.
pub proof fn lemma_format_tokens_round_trip(f: FormatType, s: Seq<char>)
    ensures
        format_of(s) == Some(f) <==> eq_ignore_case(s, format_token(f)),
        format_of(format_token(f)) == Some(f),
{
    let md = format_token(FormatType::MD);
    let html = format_token(FormatType::HTML);
    if eq_ignore_case(s, md) && eq_ignore_case(s, html) {
        assert(s.len() == 2 && s.len() == 4);
    }
    assert(eq_ignore_case(format_token(f), format_token(f)));
}

} // verus!
