use vstd::prelude::*;

verus! {

/// What a demo loop entry shows.
#[derive(Clone, Copy, Debug, PartialEq, Eq, Structural, Hash)]
pub enum DemoType {
    ArtScreen,
    DemoLump,
}

impl DemoType {
    /// The number that stands for the variant on the wire.
    pub open spec fn code_spec(self) -> u8 {
        match self {
            DemoType::ArtScreen => 0,
            DemoType::DemoLump => 1,
        }
    }

    /// The number that stands for the variant on the wire.
    pub fn code(self) -> (r: u8)
        ensures
            r == self.code_spec(),
    {
        match self {
            DemoType::ArtScreen => 0,
            DemoType::DemoLump => 1,
        }
    }

    /// The variant that a wire number stands for, if any.
    pub fn from_code(n: u8) -> (r: Option<DemoType>)
        ensures
            r matches Some(v) ==> v.code_spec() == n,
            r is None ==> forall|v: DemoType| v.code_spec() != n,
    {
        match n {
            0 => Some(DemoType::ArtScreen),
            1 => Some(DemoType::DemoLump),
            _ => None,
        }
    }

    /// Name of the variant for display.
    pub open spec fn label_spec(self) -> Seq<char> {
        match self {
            DemoType::ArtScreen => "Art Screen"@,
            DemoType::DemoLump => "Demo Lump"@,
        }
    }

    /// Name of the variant for display.
    pub fn label(self) -> (r: &'static str)
        ensures
            r@ == self.label_spec(),
    {
        match self {
            DemoType::ArtScreen => "Art Screen",
            DemoType::DemoLump => "Demo Lump",
        }
    }
}

/// How a demo loop entry wipes to the next.
#[derive(Clone, Copy, Debug, PartialEq, Eq, Structural, Hash)]
pub enum OutRowWipe {
    Immediate,
    ScreenMelt,
}

impl OutRowWipe {
    /// The number that stands for the variant on the wire.
    pub open spec fn code_spec(self) -> u8 {
        match self {
            OutRowWipe::Immediate => 0,
            OutRowWipe::ScreenMelt => 1,
        }
    }

    /// The number that stands for the variant on the wire.
    pub fn code(self) -> (r: u8)
        ensures
            r == self.code_spec(),
    {
        match self {
            OutRowWipe::Immediate => 0,
            OutRowWipe::ScreenMelt => 1,
        }
    }

    /// The variant that a wire number stands for, if any.
    pub fn from_code(n: u8) -> (r: Option<OutRowWipe>)
        ensures
            r matches Some(v) ==> v.code_spec() == n,
            r is None ==> forall|v: OutRowWipe| v.code_spec() != n,
    {
        match n {
            0 => Some(OutRowWipe::Immediate),
            1 => Some(OutRowWipe::ScreenMelt),
            _ => None,
        }
    }

    /// Name of the variant for display.
    pub open spec fn label_spec(self) -> Seq<char> {
        match self {
            OutRowWipe::Immediate => "Immediate"@,
            OutRowWipe::ScreenMelt => "Screen Melt"@,
        }
    }

    /// Name of the variant for display.
    pub fn label(self) -> (r: &'static str)
        ensures
            r@ == self.label_spec(),
    {
        match self {
            OutRowWipe::Immediate => "Immediate",
            OutRowWipe::ScreenMelt => "Screen Melt",
        }
    }
}

} // verus!
