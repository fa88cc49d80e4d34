use vstd::prelude::*;

verus! {

/// Declares `regex::Error`, the error of `regex::Regex::new`, carried
/// unopened by `PostNameError::Rule`.
#[verifier::external_type_specification]
#[verifier::external_body]
pub struct ExRegexError(regex::Error);

/// Whether `pattern` compiles as a regular expression.
pub uninterp spec fn regex_compiles(pattern: Seq<char>) -> bool;

/// Whether the regular expression `pattern` matches somewhere in `text`.
pub uninterp spec fn regex_matches(pattern: Seq<char>, text: Seq<char>) -> bool;

/// Relies on `regex::Regex::new` to compile `pattern` and on
/// `regex::Regex::is_match` to test `text` against it. Whether compiling
/// succeeds depends on the pattern alone, and the answer on the two strings
/// alone.
#[verifier::external_body]
fn regex_is_match(pattern: &str, text: &str) -> (r: Result<bool, regex::Error>)
    ensures
        r is Ok <==> regex_compiles(pattern@),
        r matches Ok(b) ==> b == regex_matches(pattern@, text@),
{
    let re = regex::Regex::new(pattern)?;
    Ok(re.is_match(text))
}

/// The rule for post names: letters, digits, '-', '_' and '.', at least one.
pub const POST_NAME_RULE: &'static str = "^[\\w\\d\\-_\\.]+$";

/// Why a post name was refused.
#[derive(Debug)]
pub enum PostNameError {
    /// The name breaks the rule.
    InvalidName,
    /// The rule itself could not be compiled.
    Rule(regex::Error),
}

/// The verdict on a name, given whether the rule matched it.
pub fn post_name_verdict(matched: bool) -> (r: Result<(), PostNameError>)
    ensures
        matched ==> r is Ok,
        !matched ==> r matches Err(PostNameError::InvalidName),
{
    if matched {
        Ok(())
    } else {
        Err(PostNameError::InvalidName)
    }
}

/// Checks a post name against `POST_NAME_RULE`.
pub fn validate_post_name(name: &str) -> (r: Result<(), PostNameError>)
    ensures
        r is Ok <==> regex_compiles(POST_NAME_RULE@) && regex_matches(POST_NAME_RULE@, name@),
        r matches Err(PostNameError::InvalidName) <==> regex_compiles(POST_NAME_RULE@)
            && !regex_matches(POST_NAME_RULE@, name@),
        r matches Err(PostNameError::Rule(_)) <==> !regex_compiles(POST_NAME_RULE@),
{
    match regex_is_match(POST_NAME_RULE, name) {
        Ok(matched) => post_name_verdict(matched),
        Err(e) => Err(PostNameError::Rule(e)),
    }
}

/// The message shown for a refused post name.
pub fn post_name_hint() -> (r: &'static str)
    ensures
        r@ == "Post name must only contain letters, numbers, '-', '_' and '.'"@,
{
    "Post name must only contain letters, numbers, '-', '_' and '.'"
}

} // verus!
