//! The errors of preset handling.
use vstd::prelude::*;

verus! {

/// `std::io::Error`, carried through unchanged.
#[verifier::external_type_specification]
#[verifier::external_body]
pub struct ExIoError(std::io::Error);

/// `serde_json::Error`, carried through unchanged.
#[verifier::external_type_specification]
#[verifier::external_body]
pub struct ExJsonError(serde_json::Error);

/// Why a preset operation failed.
#[derive(Debug)]
pub enum ZError {
    FileError(std::io::Error),
    JsonError(serde_json::Error),
    Message(String),
}

impl ZError {
    /// An error that only carries a message.
    pub fn message(text: &str) -> (res: ZError)
        ensures
            res matches ZError::Message(m) && m@ == text@,
    {
        ZError::Message(String::from_str(text))
    }
}

/// The error is a message with exactly this text.
pub open spec fn is_message(e: ZError, text: Seq<char>) -> bool {
    e matches ZError::Message(m) && m@ == text
}

} // verus!
