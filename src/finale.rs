use vstd::prelude::*;

verus! {

/// What a finale screen shows.
#[derive(Clone, Copy, Debug, PartialEq, Eq, Structural, Hash)]
pub enum Type {
    ArtScreen,
    BunnyScroller,
    CastRollCall,
}

impl Type {
    /// The number that stands for the variant on the wire.
    pub open spec fn code_spec(self) -> u8 {
        match self {
            Type::ArtScreen => 0,
            Type::BunnyScroller => 1,
            Type::CastRollCall => 2,
        }
    }

    /// The number that stands for the variant on the wire.
    pub fn code(self) -> (r: u8)
        ensures
            r == self.code_spec(),
    {
        match self {
            Type::ArtScreen => 0,
            Type::BunnyScroller => 1,
            Type::CastRollCall => 2,
        }
    }

    /// The variant that a wire number stands for, if any.
    pub fn from_code(n: u8) -> (r: Option<Type>)
        ensures
            r matches Some(v) ==> v.code_spec() == n,
            r is None ==> forall|v: Type| v.code_spec() != n,
    {
        match n {
            0 => Some(Type::ArtScreen),
            1 => Some(Type::BunnyScroller),
            2 => Some(Type::CastRollCall),
            _ => None,
        }
    }
}

/// The scrolling picture of a bunny finale.
#[derive(Clone, Debug, PartialEq, Eq)]
pub struct Bunny {
    pub stitchimage: String,
    pub overlay: u32,
    pub overlaycount: u32,
    pub overlaysound: u32,
    pub overlayx: u32,
    pub overlayy: u32,
}

/// One member of a cast roll call.
#[derive(Clone, Debug, PartialEq, Eq)]
pub struct CastMember {}

/// The members of a cast roll call finale.
#[derive(Clone, Debug, PartialEq, Eq)]
pub struct CastRollCall {
    pub castmembers: Vec<CastMember>,
}

} // verus!
