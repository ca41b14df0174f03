use vstd::prelude::*;
use crate::error::ChipmunkError;

verus! {

/// What a post-processor's `generate` function gave back, as far as it
/// matters: nothing at all; a string (the NC program); `nil` with an
/// optional error message; or a value of another Lua type, by its type name.
#[derive(Debug, Clone)]
pub enum PostprocessorReturn {
    Nothing,
    Text(String),
    Nil(Option<String>),
    Other(String),
}

/// `text` ending with a newline: as it is if it ends with one, else with
/// one added.
pub open spec fn terminated(text: Seq<char>) -> Seq<char> {
    if text.len() > 0 && text.last() == '\n' {
        text
    } else {
        text.push('\n')
    }
}

/// The NC program that a post-processor gave back, or the error it
/// reported: a string is the whole program, terminated by a newline if the
/// post-processor did not add one; `nil` is an error, with the message that
/// follows it or "unknown postprocessor error"; any other value, or none,
/// is an error too.
pub fn finish_nc(returned: PostprocessorReturn) -> (r: Result<String, ChipmunkError>)
    ensures
        match returned {
            PostprocessorReturn::Nothing => r == Err::<String, ChipmunkError>(
                ChipmunkError::PostprocessorNoValue,
            ),
            PostprocessorReturn::Text(text) => r matches Ok(nc) && nc@ == terminated(text@),
            PostprocessorReturn::Nil(message) => r matches Err(ChipmunkError::PostprocessorFailed(m))
                && m@ == match message {
                Some(given) => given@,
                None => "unknown postprocessor error"@,
            },
            PostprocessorReturn::Other(kind) => r matches Err(
                ChipmunkError::PostprocessorUnexpectedType(t),
            ) && t@ == kind@,
        },
{
    match returned {
        PostprocessorReturn::Nothing => Err(ChipmunkError::PostprocessorNoValue),
        PostprocessorReturn::Text(text) => {
            let n = text.as_str().unicode_len();
            if n > 0 && text.as_str().get_char(n - 1) == '\n' {
                Ok(text)
            } else {
                let mut nc = text;
                nc.append("\n");
                proof {
                    reveal_strlit("\n");
                    assert(nc@ =~= terminated(text@));
                }
                Ok(nc)
            }
        },
        PostprocessorReturn::Nil(message) => {
            let m = match message {
                Some(given) => given,
                None => String::from_str("unknown postprocessor error"),
            };
            Err(ChipmunkError::PostprocessorFailed(m))
        },
        PostprocessorReturn::Other(kind) => Err(
            ChipmunkError::PostprocessorUnexpectedType(kind),
        ),
    }
}

} // verus!
