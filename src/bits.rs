use vstd::prelude::*;

verus! {

/// Horizontal alignment of a status bar element.
#[derive(Clone, Copy, Debug, PartialEq, Eq, Structural, Hash)]
pub enum HoriAlign {
    Left,
    Center,
    Right,
}

/// Vertical alignment of a status bar element.
#[derive(Clone, Copy, Debug, PartialEq, Eq, Structural, Hash)]
pub enum VertAlign {
    Top,
    Center,
    Bottom,
}

/// Alignment of a status bar element, stored on the wire as a bit field:
/// the low two bits pick the horizontal alignment, the next two the vertical.
#[derive(Clone, Copy, Debug, PartialEq, Eq, Structural, Hash)]
pub struct Alignment {
    pub horizontal: HoriAlign,
    pub vertical: VertAlign,
}

impl HoriAlign {
    pub open spec fn bits(self) -> u8 {
        match self {
            HoriAlign::Left => 0,
            HoriAlign::Center => 1,
            HoriAlign::Right => 2,
        }
    }
}

impl VertAlign {
    pub open spec fn bits(self) -> u8 {
        match self {
            VertAlign::Top => 0,
            VertAlign::Center => 4,
            VertAlign::Bottom => 8,
        }
    }
}

impl Alignment {
    /// The bit field of the alignment.
    pub open spec fn bits(self) -> u8 {
        (self.horizontal.bits() + self.vertical.bits()) as u8
    }

    /// The alignment a bit field describes; bits above the low four are
    /// ignored, and a field with both bits of a pair set describes none.
    pub open spec fn from_bits(value: u8) -> Option<Alignment> {
        let h = value % 4;
        let v = (value / 4) % 4;
        if h == 3 || v == 3 {
            None
        } else {
            Some(
                Alignment {
                    horizontal: if h == 0 {
                        HoriAlign::Left
                    } else if h == 1 {
                        HoriAlign::Center
                    } else {
                        HoriAlign::Right
                    },
                    vertical: if v == 0 {
                        VertAlign::Top
                    } else if v == 1 {
                        VertAlign::Center
                    } else {
                        VertAlign::Bottom
                    },
                },
            )
        }
    }

    /// Reads the alignment from its bit field.
    pub fn from_u8(value: u8) -> (r: Result<Alignment, &'static str>)
        ensures
            r matches Ok(a) ==> Self::from_bits(value) == Some(a),
            r is Err ==> Self::from_bits(value) is None,
            r matches Err(m) ==> m@ == (if value % 4 == 3 {
                "Multiple horizontal alignments specified"@
            } else {
                "Multiple vertical alignments specified"@
            }),
    {
        assert(value & 3 == value % 4) by (bit_vector);
        assert(value & 12 == ((value / 4) % 4) * 4) by (bit_vector);
        let horizontal = match value & 0b11 {
            0b00 => HoriAlign::Left,
            0b01 => HoriAlign::Center,
            0b10 => HoriAlign::Right,
            _ => return Err("Multiple horizontal alignments specified"),
        };
        let vertical = match value & 0b1100 {
            0b0000 => VertAlign::Top,
            0b0100 => VertAlign::Center,
            0b1000 => VertAlign::Bottom,
            _ => return Err("Multiple vertical alignments specified"),
        };
        Ok(Alignment { horizontal, vertical })
    }

    /// The bit field of the alignment.
    pub fn to_u8(&self) -> (r: u8)
        ensures
            r == self.bits(),
    {
        let horizontal_bits: u8 = match self.horizontal {
            HoriAlign::Left => 0b00,
            HoriAlign::Center => 0b01,
            HoriAlign::Right => 0b10,
        };
        let vertical_bits: u8 = match self.vertical {
            VertAlign::Top => 0b0000,
            VertAlign::Center => 0b0100,
            VertAlign::Bottom => 0b1000,
        };
        assert(horizontal_bits < 4 && vertical_bits % 4 == 0 && vertical_bits < 16
            ==> horizontal_bits | vertical_bits == horizontal_bits + vertical_bits) by (bit_vector);
        horizontal_bits | vertical_bits
    }

    /// Writing an alignment and reading the bit field back gives it again.
    pub proof fn lemma_bits_round_trip(self)
        ensures
            Self::from_bits(self.bits()) == Some(self),
    {
    }
}

/// How long an interlevel animation frame lasts.
#[derive(Clone, Copy, Debug, PartialEq, Eq, Structural, Hash)]
pub enum Duration {
    Unspecified,
    Infinite,
    Fixed,
    Random,
}

/// Type of an interlevel animation frame, stored on the wire as a bit field:
/// one of the low three bits for the duration, bit twelve for a random start.
#[derive(Clone, Copy, Debug, PartialEq, Eq, Structural, Hash)]
pub struct FrameType {
    pub random_offset: bool,
    pub duration: Duration,
}

/// Bit that marks a random start offset.
pub const RANDOM_OFFSET_BIT: u16 = 0x1000;

impl Duration {
    pub open spec fn bits(self) -> u16 {
        match self {
            Duration::Unspecified => 0,
            Duration::Infinite => 1,
            Duration::Fixed => 2,
            Duration::Random => 4,
        }
    }
}

impl FrameType {
    /// The bit field of the frame type.
    pub open spec fn bits(self) -> u16 {
        (self.duration.bits() + if self.random_offset {
            RANDOM_OFFSET_BIT
        } else {
            0
        }) as u16
    }

    /// The frame type a bit field describes; bits other than the low three and
    /// bit twelve are ignored, and more than one duration bit describes none.
    pub open spec fn from_bits(value: u16) -> Option<FrameType> {
        let d = value % 8;
        let offset = (value / 0x1000) % 2 == 1;
        if d == 0 {
            Some(FrameType { random_offset: offset, duration: Duration::Unspecified })
        } else if d == 1 {
            Some(FrameType { random_offset: offset, duration: Duration::Infinite })
        } else if d == 2 {
            Some(FrameType { random_offset: offset, duration: Duration::Fixed })
        } else if d == 4 {
            Some(FrameType { random_offset: offset, duration: Duration::Random })
        } else {
            None
        }
    }

    /// Reads the frame type from its bit field.
    pub fn from_u16(value: u16) -> (r: Result<FrameType, &'static str>)
        ensures
            r matches Ok(f) ==> Self::from_bits(value) == Some(f),
            r is Err ==> Self::from_bits(value) is None,
            r matches Err(m) ==> m@ == "Multiple durations specified."@,
    {
        assert(value & 7 == value % 8) by (bit_vector);
        assert((value & 0x1000 != 0) == ((value / 0x1000) % 2 == 1)) by (bit_vector);
        let duration = match value & 0b111 {
            0b000 => Duration::Unspecified,
            0b001 => Duration::Infinite,
            0b010 => Duration::Fixed,
            0b100 => Duration::Random,
            _ => return Err("Multiple durations specified."),
        };
        let random_offset = (value & RANDOM_OFFSET_BIT) != 0;
        Ok(FrameType { random_offset, duration })
    }

    /// The bit field of the frame type.
    pub fn to_u16(&self) -> (r: u16)
        ensures
            r == self.bits(),
    {
        let duration_bits: u16 = match self.duration {
            Duration::Unspecified => 0b000,
            Duration::Infinite => 0b001,
            Duration::Fixed => 0b010,
            Duration::Random => 0b100,
        };
        let offset_bit: u16 = if self.random_offset {
            RANDOM_OFFSET_BIT
        } else {
            0
        };
        assert(duration_bits < 8 && (offset_bit == 0 || offset_bit == 0x1000) ==> duration_bits
            | offset_bit == duration_bits + offset_bit) by (bit_vector);
        duration_bits | offset_bit
    }

    /// Writing a frame type and reading the bit field back gives it again.
    pub proof fn lemma_bits_round_trip(self)
        ensures
            Self::from_bits(self.bits()) == Some(self),
    {
    }
}

} // verus!
