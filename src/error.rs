//! Why a buffer failed to decode.

use vstd::prelude::*;

use crate::attr::AttrType;
use crate::command::CommandType;

verus! {

/// A decode failure. Every failure ends the decode of the whole buffer.
#[derive(Debug, Clone, PartialEq, Eq)]
pub enum Error {
    /// The magic bytes or the version at the start of a stream are wrong.
    HeaderMismatch,
    /// A command's stored checksum differs from the one computed over it.
    ChecksumMismatch,
    /// A command carries a type tag outside the known set.
    UnknownCommandType(u16),
    /// A length read from the buffer reaches past its end.
    Truncated,
    /// A known attribute's value does not have the width its type requires.
    MalformedAttribute(AttrType),
    /// A command lacks an attribute that its type requires.
    MissingRequiredAttribute { command: CommandType, attribute: AttrType },
    /// Bytes remain after the last stream, and they do not start another.
    TrailingData(Vec<u8>),
}

/// The mathematical value of an [`Error`].
pub enum DecodeError {
    HeaderMismatch,
    ChecksumMismatch,
    UnknownCommandType(u16),
    Truncated,
    MalformedAttribute(AttrType),
    MissingRequiredAttribute { command: CommandType, attribute: AttrType },
    TrailingData(Seq<u8>),
}

impl View for Error {
    type V = DecodeError;

    open spec fn view(&self) -> DecodeError {
        match self {
            Error::HeaderMismatch => DecodeError::HeaderMismatch,
            Error::ChecksumMismatch => DecodeError::ChecksumMismatch,
            Error::UnknownCommandType(t) => DecodeError::UnknownCommandType(*t),
            Error::Truncated => DecodeError::Truncated,
            Error::MalformedAttribute(a) => DecodeError::MalformedAttribute(*a),
            Error::MissingRequiredAttribute { command, attribute } => {
                DecodeError::MissingRequiredAttribute { command: *command, attribute: *attribute }
            },
            Error::TrailingData(rest) => DecodeError::TrailingData(rest@),
        }
    }
}

} // verus!
