//! Errors that cross the binding surface.
use vstd::prelude::*;

verus! {

/// Errors crossing the FFI boundary.
#[derive(Debug)]
pub enum FfiError {
    /// A key, address or id that is not 32 bytes long.
    BadKey,
    /// The mesh core refused the operation; its own message.
    Hop(String),
}

impl FfiError {
    /// What `message` says.
    pub open spec fn text(self) -> Seq<char> {
        match self {
            FfiError::BadKey => "invalid key length (want 32 bytes)"@,
            FfiError::Hop(cause) => "hop error: "@ + cause@,
        }
    }

    /// The message a host shows.
    pub fn message(&self) -> (text: String)
        ensures
            text@ == self.text(),
    {
        match self {
            FfiError::BadKey => "invalid key length (want 32 bytes)".to_string(),
            FfiError::Hop(cause) => {
                let mut text: String = "hop error: ".to_string();
                text.append(cause.as_str());
                text
            },
        }
    }
}

} // verus!
