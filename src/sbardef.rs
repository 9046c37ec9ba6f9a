use vstd::prelude::*;

verus! {

/// How the glyphs of a number font are spaced.
#[derive(Clone, Copy, Debug, PartialEq, Eq, Structural, Hash)]
pub enum NumberFontType {
    MonoSpacedZero,
    MonoSpaceWidest,
    Proportional,
}

impl NumberFontType {
    /// The number that stands for the variant on the wire.
    pub open spec fn code_spec(self) -> u8 {
        match self {
            NumberFontType::MonoSpacedZero => 0,
            NumberFontType::MonoSpaceWidest => 1,
            NumberFontType::Proportional => 2,
        }
    }

    /// The number that stands for the variant on the wire.
    pub fn code(self) -> (r: u8)
        ensures
            r == self.code_spec(),
    {
        match self {
            NumberFontType::MonoSpacedZero => 0,
            NumberFontType::MonoSpaceWidest => 1,
            NumberFontType::Proportional => 2,
        }
    }

    /// The variant that a wire number stands for, if any.
    pub fn from_code(n: u8) -> (r: Option<NumberFontType>)
        ensures
            r matches Some(v) ==> v.code_spec() == n,
            r is None ==> forall|v: NumberFontType| v.code_spec() != n,
    {
        match n {
            0 => Some(NumberFontType::MonoSpacedZero),
            1 => Some(NumberFontType::MonoSpaceWidest),
            2 => Some(NumberFontType::Proportional),
            _ => None,
        }
    }
}

/// A font for drawing numbers on the status bar.
#[derive(Clone, Debug, PartialEq, Eq)]
pub struct NumberFont {
    pub name: String,
    pub numberfont_type: NumberFontType,
    pub stem: String,
}

} // verus!
