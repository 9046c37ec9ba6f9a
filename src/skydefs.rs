use vstd::prelude::*;

verus! {

/// How a sky is drawn.
#[derive(Clone, Copy, Debug, PartialEq, Eq, Structural, Hash)]
pub enum SkyType {
    Standard,
    Fire,
    WithForeground,
}

impl SkyType {
    /// The number that stands for the variant on the wire.
    pub open spec fn code_spec(self) -> u8 {
        match self {
            SkyType::Standard => 0,
            SkyType::Fire => 1,
            SkyType::WithForeground => 2,
        }
    }

    /// The number that stands for the variant on the wire.
    pub fn code(self) -> (r: u8)
        ensures
            r == self.code_spec(),
    {
        match self {
            SkyType::Standard => 0,
            SkyType::Fire => 1,
            SkyType::WithForeground => 2,
        }
    }

    /// The variant that a wire number stands for, if any.
    pub fn from_code(n: u8) -> (r: Option<SkyType>)
        ensures
            r matches Some(v) ==> v.code_spec() == n,
            r is None ==> forall|v: SkyType| v.code_spec() != n,
    {
        match n {
            0 => Some(SkyType::Standard),
            1 => Some(SkyType::Fire),
            2 => Some(SkyType::WithForeground),
            _ => None,
        }
    }

    /// Name of the variant for display.
    pub open spec fn label_spec(self) -> Seq<char> {
        match self {
            SkyType::Standard => "Standard"@,
            SkyType::Fire => "Fire"@,
            SkyType::WithForeground => "With Foreground"@,
        }
    }

    /// Name of the variant for display.
    pub fn label(self) -> (r: &'static str)
        ensures
            r@ == self.label_spec(),
    {
        match self {
            SkyType::Standard => "Standard",
            SkyType::Fire => "Fire",
            SkyType::WithForeground => "With Foreground",
        }
    }
}

/// A flat that shows a sky instead of its own texture.
#[derive(Clone, Debug, PartialEq, Eq)]
pub struct FlatMapping {
    pub flat: String,
    pub sky: String,
}

impl Default for FlatMapping {
    fn default() -> (r: FlatMapping)
        ensures
            r.flat@ == "F_SKY1"@,
            r.sky@ == "SKY1"@,
    {
        FlatMapping { flat: String::from_str("F_SKY1"), sky: String::from_str("SKY1") }
    }
}

} // verus!
