use vstd::prelude::*;
use vstd::string::StringExecFns;

verus! {

/// The diagnostic for a failed computation: the message, a colon and a
/// space, then the description of the failure.
pub open spec fn failure_line_spec(message: Seq<char>, description: Seq<char>) -> Seq<char> {
    message + ": "@ + description
}

/// Builds the line `"<message>: <description>"`.
pub fn failure_line(message: &str, description: &str) -> (r: String)
    ensures
        r@ == failure_line_spec(message@, description@),
{
    let head = message.to_owned().concat(": ");
    head.concat(description)
}

/// Decides what becomes of a result whose failure is already described as
/// text: a success goes on unchanged; a failure becomes the line
/// `"<message>: <description>"` that is printed before the program stops.
pub fn diagnose_result<R>(value: Result<R, String>, message: &str) -> (r: Result<R, String>)
    ensures
        match value {
            Ok(v) => r == Ok::<R, String>(v),
            Err(e) => r is Err && r->Err_0@ == failure_line_spec(message@, e@),
        },
{
    match value {
        Ok(v) => Ok(v),
        Err(e) => Err(failure_line(message, e.as_str())),
    }
}

/// Decides what becomes of an optional value: a present value goes on
/// unchanged; an absent one becomes the line `"<message>"` alone, with
/// nothing after it, that is printed before the program stops.
pub fn diagnose_option<R>(value: Option<R>, message: &str) -> (r: Result<R, String>)
    ensures
        match value {
            Some(v) => r == Ok::<R, String>(v),
            None => r is Err && r->Err_0@ == message@,
        },
{
    match value {
        Some(v) => Ok(v),
        None => Err(message.to_owned()),
    }
}

} // verus!
