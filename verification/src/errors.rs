//! Error taxonomy: decode failures local to one payload, and fetch failures
//! local to one poll cycle.

use vstd::prelude::*;

verus! {

/// Why a payload (or one of its fields) failed to decode.
#[derive(Clone, Debug, PartialEq, Eq)]
pub enum DecodeError {
    /// The body is not well-formed JSON; `pos` is the character offset of the
    /// first offending character.
    Syntax { pos: usize },
    /// A required field is absent from an object.
    MissingField { field: String },
    /// A field is present but holds the wrong JSON shape.
    WrongType { field: String },
    /// A closed enumeration received a token outside its wire forms.
    UnknownVariant { token: String },
    /// A timestamp deviates from the exact minute-precision pattern
    /// `YYYY-MM-DDTHH:MMZ` — among other deviations, one that carries
    /// seconds.
    InvalidTimestamp,
    /// A numeric field does not match the JSON number grammar or overflows
    /// its integer target.
    InvalidNumber { field: String },
}

/// Why one poll cycle produced no fresh metric values.
#[derive(Clone, Debug, PartialEq, Eq)]
pub enum FetchError {
    /// The HTTP request itself failed (connect, TLS, read).
    Transport { message: String },
    /// The upstream answered with a non-2xx status code.
    HttpStatus(u16),
    /// The body arrived but did not decode.
    Decode(DecodeError),
    /// The decoded envelope (or a region's observation sequence) is empty:
    /// a data-contract violation, not a normal empty case.
    NoRegionData,
}

} // verus!
