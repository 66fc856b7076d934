use vstd::prelude::*;

use crate::text::{append_decimal, decimal};

verus! {

/// Errors that can occur during M2PA message processing.
///
/// Every rejection of a codec function is one of these variants; the
/// contracts of the decoders state exactly which input produces which one.
#[derive(Debug, Clone, Copy, PartialEq, Eq)]
pub enum M2paError {
    /// The common header's version octet is not 1 (carries the octet seen).
    InvalidVersion(u8),
    /// The common header's spare octet is not 0 (carries the octet seen).
    InvalidSpare(u8),
    /// The common header's message class is not 11 (carries the class seen).
    InvalidMessageClass(u8),
    /// The message type is neither 1 (User Data) nor 2 (Link Status).
    InvalidMessageType(u8),
    /// Fewer bytes than the layout needs: at least `expected`, got `actual`.
    TooShort { expected: usize, actual: usize },
    /// A Link Status state value outside 1..=8.
    InvalidLinkStatus(u32),
}

/// The message text of an error.
pub open spec fn error_text(e: M2paError) -> Seq<char> {
    match e {
        M2paError::InvalidVersion(v) => "invalid version: expected 1, got "@ + decimal(v as nat),
        M2paError::InvalidSpare(v) => "spare field must be 0, got "@ + decimal(v as nat),
        M2paError::InvalidMessageClass(v) => "invalid message class: expected 11, got "@ + decimal(
            v as nat,
        ),
        M2paError::InvalidMessageType(v) =>
            "invalid message type: expected 1 (User Data) or 2 (Link Status), got "@ + decimal(
            v as nat,
        ),
        M2paError::TooShort { expected, actual } => "message too short: expected at least "@
            + decimal(expected as nat) + " bytes, got "@ + decimal(actual as nat),
        M2paError::InvalidLinkStatus(v) => "invalid link status value: "@ + decimal(v as nat),
    }
}

impl M2paError {
    /// The message text, e.g. "invalid version: expected 1, got 2".
    pub fn to_string(&self) -> (r: String)
        ensures
            r@ == error_text(*self),
    {
        match self {
            M2paError::InvalidVersion(v) => {
                let mut r = String::from_str("invalid version: expected 1, got ");
                append_decimal(&mut r, *v as u64);
                r
            },
            M2paError::InvalidSpare(v) => {
                let mut r = String::from_str("spare field must be 0, got ");
                append_decimal(&mut r, *v as u64);
                r
            },
            M2paError::InvalidMessageClass(v) => {
                let mut r = String::from_str("invalid message class: expected 11, got ");
                append_decimal(&mut r, *v as u64);
                r
            },
            M2paError::InvalidMessageType(v) => {
                let mut r = String::from_str(
                    "invalid message type: expected 1 (User Data) or 2 (Link Status), got ",
                );
                append_decimal(&mut r, *v as u64);
                r
            },
            M2paError::TooShort { expected, actual } => {
                let mut r = String::from_str("message too short: expected at least ");
                append_decimal(&mut r, *expected as u64);
                r.append(" bytes, got ");
                append_decimal(&mut r, *actual as u64);
                r
            },
            M2paError::InvalidLinkStatus(v) => {
                let mut r = String::from_str("invalid link status value: ");
                append_decimal(&mut r, *v as u64);
                r
            },
        }
    }
}

} // verus!
