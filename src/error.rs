use vstd::prelude::*;

verus! {

/// Why a value could not be read from its text form.
#[derive(Clone, Copy, Debug, PartialEq, Eq, Structural, Hash)]
pub enum CodecError {
    /// An options line does not hold exactly two whitespace-separated words.
    MalformedLine,
    /// An options line names no option of the catalog.
    UnknownOption,
    /// An option's value is not a number `str::parse::<u16>` accepts.
    InvalidValue,
    /// An enumerated option's value is no code of its enumeration.
    InvalidEnumValue,
    /// A tier token names no known tier.
    UnknownTier,
    /// A game mode token names no known mode.
    UnknownMode,
    /// A version is not three dot-separated numbers below 256.
    InvalidVersion,
    /// The text is not one JSON string, or could not be written as one.
    InvalidJson,
    /// A value does not have the shape, or lies outside the bound, of its option.
    OptionShapeMismatch,
}

} // verus!
