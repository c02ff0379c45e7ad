//! The ways in which an operation of this library fails.

use vstd::prelude::*;

verus! {

/// Why an operation failed.
#[derive(Clone, Copy, Debug, PartialEq, Eq, Structural)]
pub enum Error {
    /// Bytes that are not the encoding of what they should encode.
    InvalidEncoding,
    /// A credential links no commitment to the attribute.
    UnknownAttribute,
    /// A credential links the attribute to a commitment it does not hold.
    IndexOutOfRange,
    /// A disclosure that cannot be read, or two disclosures of one name.
    MalformedDisclosures,
    /// Two credentials that do not share their public parameters.
    ProtocolPrecondition,
}

impl Error {
    /// The name of the failure.
    pub fn message(&self) -> (r: String)
        ensures
            r@ == match *self {
                Error::InvalidEncoding => "invalid encoding"@,
                Error::UnknownAttribute => "unknown attribute"@,
                Error::IndexOutOfRange => "index out of range"@,
                Error::MalformedDisclosures => "malformed disclosures"@,
                Error::ProtocolPrecondition => "protocol precondition"@,
            },
    {
        match self {
            Error::InvalidEncoding => "invalid encoding".to_string(),
            Error::UnknownAttribute => "unknown attribute".to_string(),
            Error::IndexOutOfRange => "index out of range".to_string(),
            Error::MalformedDisclosures => "malformed disclosures".to_string(),
            Error::ProtocolPrecondition => "protocol precondition".to_string(),
        }
    }
}

} // verus!
