use vstd::prelude::*;

verus! {

/// Why an operation of this library was refused. A signature that does not
/// match is not among these: it is the verdict `false`.
#[derive(Clone, Copy, Debug, PartialEq, Eq, Structural)]
pub enum TextError {
    /// A named source of bytes does not exist.
    SourceNotFound,
    /// Key bytes of the wrong length, or bytes that are no public key.
    KeyFormat,
    /// Signature text that is no base64, or signature bytes of the wrong length.
    Encoding,
    /// The system's random source gave nothing.
    Generation,
}

impl TextError {
    /// The text shown to a user for this error.
    pub fn message(&self) -> (text: &'static str)
        ensures
            text@ == self.message_spec(),
    {
        match self {
            TextError::SourceNotFound => "source not found",
            TextError::KeyFormat => "key has the wrong length or format",
            TextError::Encoding => "signature is not validly encoded",
            TextError::Generation => "random source unavailable",
        }
    }

    pub open spec fn message_spec(&self) -> Seq<char> {
        match self {
            TextError::SourceNotFound => "source not found"@,
            TextError::KeyFormat => "key has the wrong length or format"@,
            TextError::Encoding => "signature is not validly encoded"@,
            TextError::Generation => "random source unavailable"@,
        }
    }
}

} // verus!
