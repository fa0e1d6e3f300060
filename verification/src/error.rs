use vstd::prelude::*;

verus! {

/// The one error this library reports: an I/O-classified failure carrying a
/// human-readable message. Whether the input bytes could not be read as text
/// or the text was not the TOML document the caller asked for, callers see
/// the same kind of error and can only inspect the attached message.
#[derive(Debug, Clone)]
pub struct DecodeError {
    message: String,
}

impl DecodeError {
    /// The attached message, as an abstract sequence of characters.
    pub closed spec fn spec_message(&self) -> Seq<char> {
        self.message@
    }

    /// Wraps a message into an error value.
    pub fn new(message: String) -> (e: DecodeError)
        ensures
            e.spec_message() == message@,
    {
        DecodeError { message }
    }

    /// Borrows the attached message.
    pub fn message(&self) -> (m: &str)
        ensures
            m@ == self.spec_message(),
    {
        self.message.as_str()
    }
}

} // verus!
