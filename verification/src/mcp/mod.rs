//! Turning a tool's result into the answer of an MCP tool call.

use vstd::prelude::*;

verus! {

/// The answer to a tool call: the result's data as text (or `Success` when it carries
/// none) for a successful result, the result's error (or `Unknown error`) otherwise.
pub open spec fn call_answer(success: bool, data_text: Option<Seq<char>>, error: Option<Seq<char>>) -> Result<Seq<char>, Seq<char>> {
    if success {
        Ok(
            match data_text {
                Some(t) => t,
                None => "Success"@,
            },
        )
    } else {
        Err(
            match error {
                Some(e) => e,
                None => "Unknown error"@,
            },
        )
    }
}

/// The text of an optional string.
pub open spec fn opt_text(s: Option<String>) -> Option<Seq<char>> {
    match s {
        Some(t) => Some(t@),
        None => None,
    }
}

/// Converts a tool result (its success flag, its data rendered as pretty-printed JSON,
/// and its error) into the tool call's answer (see `call_answer`).
pub fn convert_result(success: bool, data_text: Option<String>, error: Option<String>) -> (res: Result<String, String>)
    ensures
        match res {
            Ok(t) => call_answer(success, opt_text(data_text), opt_text(error)) == Ok::<Seq<char>, Seq<char>>(t@),
            Err(e) => call_answer(success, opt_text(data_text), opt_text(error)) == Err::<Seq<char>, Seq<char>>(e@),
        },
{
    if success {
        match data_text {
            Some(t) => Ok(t),
            None => Ok("Success".to_owned()),
        }
    } else {
        match error {
            Some(e) => Err(e),
            None => Err("Unknown error".to_owned()),
        }
    }
}

} // verus!
