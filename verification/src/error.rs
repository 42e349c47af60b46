use vstd::prelude::*;

verus! {

/// Why rendering a help page failed.
#[derive(Clone, Copy, Debug, PartialEq, Eq, Structural)]
pub enum Error {
    /// An input image or icon could not be decoded.
    Decode,
    /// The rendered page could not be encoded.
    Encode,
}

impl Error {
    /// The text that describes the error.
    pub open spec fn spec_message(self) -> Seq<char> {
        match self {
            Error::Decode => "Decode failed"@,
            Error::Encode => "Encode failed"@,
        }
    }

    /// The human-readable description of the error.
    pub fn message(&self) -> (s: String)
        ensures
            s@ == self.spec_message(),
    {
        match self {
            Error::Decode => "Decode failed".to_owned(),
            Error::Encode => "Encode failed".to_owned(),
        }
    }
}

} // verus!
