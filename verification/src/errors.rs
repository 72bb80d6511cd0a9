//! The error of a shader that failed to compile.

use vstd::prelude::*;

verus! {

/// A shader failed to compile; the field holds the compiler's log.
#[derive(Debug)]
pub struct ShaderError(pub String);

/// `String::push_str`: the text afterwards is the text before followed by `tail`.
#[verifier::external_body]
fn append(text: &mut String, tail: &str)
    ensures
        final(text)@ == old(text)@ + tail@,
{
    text.push_str(tail);
}

impl ShaderError {
    /// The error for a failed compilation whose log, where the compiler gave
    /// one, is `log`.
    pub fn from_log(log: Option<String>) -> (error: ShaderError)
        ensures
            error.0@ == match log {
                Some(text) => text@,
                None => "Unknown error creating shader"@,
            },
    {
        match log {
            Some(text) => ShaderError(text),
            None => ShaderError("Unknown error creating shader".to_owned()),
        }
    }

    /// The error as a line of text: the log behind the words `Error: `.
    pub fn message(&self) -> (text: String)
        ensures
            text@ == "Error: "@ + self.0@,
    {
        let mut text: String = "Error: ".to_owned();
        append(&mut text, self.0.as_str());
        text
    }
}

} // verus!
