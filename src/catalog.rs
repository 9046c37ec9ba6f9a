use vstd::prelude::*;

use crate::text::slice_is;
use crate::tier::Executable;

verus! {

/// Number of options in the catalog.
pub const OPTION_COUNT: usize = 47;

/// How two-sided middle textures are clipped.
#[derive(Clone, Copy, Debug, PartialEq, Eq, Structural, Hash)]
pub enum ClipMasked {
    Off,
    MultipatchOnly,
    All,
}

/// Which textures have their widths clamped to a power of two.
#[derive(Clone, Copy, Debug, PartialEq, Eq, Structural, Hash)]
pub enum TexWidthClamp {
    All,
    SolidWallsOnly,
    Off,
}

/// A value held by a compatibility option.
#[derive(Clone, Copy, Debug, PartialEq, Eq, Structural, Hash)]
pub enum OptionValue {
    Bool(bool),
    Int(u16),
    ClipMasked(ClipMasked),
    TexWidthClamp(TexWidthClamp),
}

/// The shape of value an option holds; `Int` carries the largest value allowed.
#[derive(Clone, Copy, Debug, PartialEq, Eq, Structural, Hash)]
pub enum ValueShape {
    Bool,
    Int(u16),
    ClipMasked,
    TexWidthClamp,
}

impl ClipMasked {
    /// The ordinal code of the state on the wire.
    pub open spec fn code_spec(self) -> nat {
        match self {
            ClipMasked::Off => 0,
            ClipMasked::MultipatchOnly => 1,
            ClipMasked::All => 2,
        }
    }

    /// The state with ordinal code `n`, if any.
    pub open spec fn from_code_spec(n: nat) -> Option<ClipMasked> {
        if n == 0 {
            Some(ClipMasked::Off)
        } else if n == 1 {
            Some(ClipMasked::MultipatchOnly)
        } else if n == 2 {
            Some(ClipMasked::All)
        } else {
            Option::None
        }
    }

    pub fn code(self) -> (r: u16)
        ensures
            r == self.code_spec(),
    {
        match self {
            ClipMasked::Off => 0,
            ClipMasked::MultipatchOnly => 1,
            ClipMasked::All => 2,
        }
    }

    pub fn from_code(n: u16) -> (r: Option<ClipMasked>)
        ensures
            r == Self::from_code_spec(n as nat),
    {
        if n == 0 {
            Some(ClipMasked::Off)
        } else if n == 1 {
            Some(ClipMasked::MultipatchOnly)
        } else if n == 2 {
            Some(ClipMasked::All)
        } else {
            Option::None
        }
    }

    /// Name of the state for display.
    pub open spec fn label_spec(self) -> Seq<char> {
        match self {
            ClipMasked::Off => "None"@,
            ClipMasked::MultipatchOnly => "Multi-patch only"@,
            ClipMasked::All => "All"@,
        }
    }

    /// Name of the state for display.
    pub fn label(self) -> (r: &'static str)
        ensures
            r@ == self.label_spec(),
    {
        match self {
            ClipMasked::Off => "None",
            ClipMasked::MultipatchOnly => "Multi-patch only",
            ClipMasked::All => "All",
        }
    }
}

impl TexWidthClamp {
    /// The ordinal code of the state on the wire.
    pub open spec fn code_spec(self) -> nat {
        match self {
            TexWidthClamp::All => 0,
            TexWidthClamp::SolidWallsOnly => 1,
            TexWidthClamp::Off => 2,
        }
    }

    /// The state with ordinal code `n`, if any.
    pub open spec fn from_code_spec(n: nat) -> Option<TexWidthClamp> {
        if n == 0 {
            Some(TexWidthClamp::All)
        } else if n == 1 {
            Some(TexWidthClamp::SolidWallsOnly)
        } else if n == 2 {
            Some(TexWidthClamp::Off)
        } else {
            Option::None
        }
    }

    pub fn code(self) -> (r: u16)
        ensures
            r == self.code_spec(),
    {
        match self {
            TexWidthClamp::All => 0,
            TexWidthClamp::SolidWallsOnly => 1,
            TexWidthClamp::Off => 2,
        }
    }

    pub fn from_code(n: u16) -> (r: Option<TexWidthClamp>)
        ensures
            r == Self::from_code_spec(n as nat),
    {
        if n == 0 {
            Some(TexWidthClamp::All)
        } else if n == 1 {
            Some(TexWidthClamp::SolidWallsOnly)
        } else if n == 2 {
            Some(TexWidthClamp::Off)
        } else {
            Option::None
        }
    }

    /// Name of the state for display.
    pub open spec fn label_spec(self) -> Seq<char> {
        match self {
            TexWidthClamp::All => "All"@,
            TexWidthClamp::SolidWallsOnly => "Solid walls only"@,
            TexWidthClamp::Off => "None"@,
        }
    }

    /// Name of the state for display.
    pub fn label(self) -> (r: &'static str)
        ensures
            r@ == self.label_spec(),
    {
        match self {
            TexWidthClamp::All => "All",
            TexWidthClamp::SolidWallsOnly => "Solid walls only",
            TexWidthClamp::Off => "None",
        }
    }
}

impl OptionValue {
    /// Whether the value has the given shape and, for an integer, lies within its bound.
    pub open spec fn fits(self, shape: ValueShape) -> bool {
        match (self, shape) {
            (OptionValue::Bool(_), ValueShape::Bool) => true,
            (OptionValue::Int(n), ValueShape::Int(max)) => n <= max,
            (OptionValue::ClipMasked(_), ValueShape::ClipMasked) => true,
            (OptionValue::TexWidthClamp(_), ValueShape::TexWidthClamp) => true,
            _ => false,
        }
    }

    /// Whether the value has the given shape and, for an integer, lies within its bound.
    pub fn fits_shape(self, shape: ValueShape) -> (r: bool)
        ensures
            r == self.fits(shape),
    {
        match (self, shape) {
            (OptionValue::Bool(_), ValueShape::Bool) => true,
            (OptionValue::Int(n), ValueShape::Int(max)) => n <= max,
            (OptionValue::ClipMasked(_), ValueShape::ClipMasked) => true,
            (OptionValue::TexWidthClamp(_), ValueShape::TexWidthClamp) => true,
            _ => false,
        }
    }
}

/// A compatibility option of the catalog, named exactly as on the wire.
#[allow(non_camel_case_types)]
#[derive(Clone, Copy, Debug, PartialEq, Eq, Structural, PartialOrd, Ord, Hash)]
pub enum CompOption {
    comp_soul,
    comp_finaldoomteleport,
    comp_texwidthclamp,
    comp_clipmasked,
    comp_thingfloorlight,
    comp_musinfo,
    comp_moveblock,
    weapon_recoil,
    monsters_remember,
    monster_infighting,
    monster_backing,
    monster_avoid_hazards,
    monkeys,
    monster_friction,
    help_friends,
    player_helpers,
    friend_distance,
    dog_jumping,
    comp_telefrag,
    comp_dropoff,
    comp_vile,
    comp_pain,
    comp_skull,
    comp_blazing,
    comp_doorlight,
    comp_model,
    comp_god,
    comp_falloff,
    comp_floors,
    comp_skymap,
    comp_pursuit,
    comp_doorstuck,
    comp_staylift,
    comp_zombie,
    comp_stairs,
    comp_infcheat,
    comp_zerotags,
    comp_respawn,
    comp_ledgeblock,
    comp_friendlyspawn,
    comp_voodooscroller,
    comp_reservedlineflag,
    comp_666,
    comp_maskedanim,
    comp_ouchface,
    comp_maxhealth,
    comp_sound,
}

impl CompOption {
    /// Position of the option in the catalog, which is also its sort order.
    pub open spec fn index(self) -> nat {
        match self {
            CompOption::comp_soul => 0,
            CompOption::comp_finaldoomteleport => 1,
            CompOption::comp_texwidthclamp => 2,
            CompOption::comp_clipmasked => 3,
            CompOption::comp_thingfloorlight => 4,
            CompOption::comp_musinfo => 5,
            CompOption::comp_moveblock => 6,
            CompOption::weapon_recoil => 7,
            CompOption::monsters_remember => 8,
            CompOption::monster_infighting => 9,
            CompOption::monster_backing => 10,
            CompOption::monster_avoid_hazards => 11,
            CompOption::monkeys => 12,
            CompOption::monster_friction => 13,
            CompOption::help_friends => 14,
            CompOption::player_helpers => 15,
            CompOption::friend_distance => 16,
            CompOption::dog_jumping => 17,
            CompOption::comp_telefrag => 18,
            CompOption::comp_dropoff => 19,
            CompOption::comp_vile => 20,
            CompOption::comp_pain => 21,
            CompOption::comp_skull => 22,
            CompOption::comp_blazing => 23,
            CompOption::comp_doorlight => 24,
            CompOption::comp_model => 25,
            CompOption::comp_god => 26,
            CompOption::comp_falloff => 27,
            CompOption::comp_floors => 28,
            CompOption::comp_skymap => 29,
            CompOption::comp_pursuit => 30,
            CompOption::comp_doorstuck => 31,
            CompOption::comp_staylift => 32,
            CompOption::comp_zombie => 33,
            CompOption::comp_stairs => 34,
            CompOption::comp_infcheat => 35,
            CompOption::comp_zerotags => 36,
            CompOption::comp_respawn => 37,
            CompOption::comp_ledgeblock => 38,
            CompOption::comp_friendlyspawn => 39,
            CompOption::comp_voodooscroller => 40,
            CompOption::comp_reservedlineflag => 41,
            CompOption::comp_666 => 42,
            CompOption::comp_maskedanim => 43,
            CompOption::comp_ouchface => 44,
            CompOption::comp_maxhealth => 45,
            CompOption::comp_sound => 46,
        }
    }

    /// The option at position `i` of the catalog (the last one past the end).
    pub open spec fn from_index(i: nat) -> CompOption {
        if i == 0 {
            CompOption::comp_soul
        } else if i == 1 {
            CompOption::comp_finaldoomteleport
        } else if i == 2 {
            CompOption::comp_texwidthclamp
        } else if i == 3 {
            CompOption::comp_clipmasked
        } else if i == 4 {
            CompOption::comp_thingfloorlight
        } else if i == 5 {
            CompOption::comp_musinfo
        } else if i == 6 {
            CompOption::comp_moveblock
        } else if i == 7 {
            CompOption::weapon_recoil
        } else if i == 8 {
            CompOption::monsters_remember
        } else if i == 9 {
            CompOption::monster_infighting
        } else if i == 10 {
            CompOption::monster_backing
        } else if i == 11 {
            CompOption::monster_avoid_hazards
        } else if i == 12 {
            CompOption::monkeys
        } else if i == 13 {
            CompOption::monster_friction
        } else if i == 14 {
            CompOption::help_friends
        } else if i == 15 {
            CompOption::player_helpers
        } else if i == 16 {
            CompOption::friend_distance
        } else if i == 17 {
            CompOption::dog_jumping
        } else if i == 18 {
            CompOption::comp_telefrag
        } else if i == 19 {
            CompOption::comp_dropoff
        } else if i == 20 {
            CompOption::comp_vile
        } else if i == 21 {
            CompOption::comp_pain
        } else if i == 22 {
            CompOption::comp_skull
        } else if i == 23 {
            CompOption::comp_blazing
        } else if i == 24 {
            CompOption::comp_doorlight
        } else if i == 25 {
            CompOption::comp_model
        } else if i == 26 {
            CompOption::comp_god
        } else if i == 27 {
            CompOption::comp_falloff
        } else if i == 28 {
            CompOption::comp_floors
        } else if i == 29 {
            CompOption::comp_skymap
        } else if i == 30 {
            CompOption::comp_pursuit
        } else if i == 31 {
            CompOption::comp_doorstuck
        } else if i == 32 {
            CompOption::comp_staylift
        } else if i == 33 {
            CompOption::comp_zombie
        } else if i == 34 {
            CompOption::comp_stairs
        } else if i == 35 {
            CompOption::comp_infcheat
        } else if i == 36 {
            CompOption::comp_zerotags
        } else if i == 37 {
            CompOption::comp_respawn
        } else if i == 38 {
            CompOption::comp_ledgeblock
        } else if i == 39 {
            CompOption::comp_friendlyspawn
        } else if i == 40 {
            CompOption::comp_voodooscroller
        } else if i == 41 {
            CompOption::comp_reservedlineflag
        } else if i == 42 {
            CompOption::comp_666
        } else if i == 43 {
            CompOption::comp_maskedanim
        } else if i == 44 {
            CompOption::comp_ouchface
        } else if i == 45 {
            CompOption::comp_maxhealth
        } else {
            CompOption::comp_sound
        }
    }

    /// Every option of the catalog, in catalog order.
    pub open spec fn all_spec() -> Seq<CompOption> {
        Seq::new(OPTION_COUNT as nat, |i: int| Self::from_index(i as nat))
    }

    pub proof fn lemma_index(self)
        ensures
            self.index() < OPTION_COUNT,
            Self::from_index(self.index()) == self,
    {
    }

    pub proof fn lemma_from_index(i: nat)
        requires
            i < OPTION_COUNT,
        ensures
            Self::from_index(i).index() == i,
    {
    }

    /// Position of the option in the catalog.
    pub fn ordinal(self) -> (r: usize)
        ensures
            r == self.index(),
            r < OPTION_COUNT,
    {
        match self {
            CompOption::comp_soul => 0,
            CompOption::comp_finaldoomteleport => 1,
            CompOption::comp_texwidthclamp => 2,
            CompOption::comp_clipmasked => 3,
            CompOption::comp_thingfloorlight => 4,
            CompOption::comp_musinfo => 5,
            CompOption::comp_moveblock => 6,
            CompOption::weapon_recoil => 7,
            CompOption::monsters_remember => 8,
            CompOption::monster_infighting => 9,
            CompOption::monster_backing => 10,
            CompOption::monster_avoid_hazards => 11,
            CompOption::monkeys => 12,
            CompOption::monster_friction => 13,
            CompOption::help_friends => 14,
            CompOption::player_helpers => 15,
            CompOption::friend_distance => 16,
            CompOption::dog_jumping => 17,
            CompOption::comp_telefrag => 18,
            CompOption::comp_dropoff => 19,
            CompOption::comp_vile => 20,
            CompOption::comp_pain => 21,
            CompOption::comp_skull => 22,
            CompOption::comp_blazing => 23,
            CompOption::comp_doorlight => 24,
            CompOption::comp_model => 25,
            CompOption::comp_god => 26,
            CompOption::comp_falloff => 27,
            CompOption::comp_floors => 28,
            CompOption::comp_skymap => 29,
            CompOption::comp_pursuit => 30,
            CompOption::comp_doorstuck => 31,
            CompOption::comp_staylift => 32,
            CompOption::comp_zombie => 33,
            CompOption::comp_stairs => 34,
            CompOption::comp_infcheat => 35,
            CompOption::comp_zerotags => 36,
            CompOption::comp_respawn => 37,
            CompOption::comp_ledgeblock => 38,
            CompOption::comp_friendlyspawn => 39,
            CompOption::comp_voodooscroller => 40,
            CompOption::comp_reservedlineflag => 41,
            CompOption::comp_666 => 42,
            CompOption::comp_maskedanim => 43,
            CompOption::comp_ouchface => 44,
            CompOption::comp_maxhealth => 45,
            CompOption::comp_sound => 46,
        }
    }

    /// The option at position `i` of the catalog.
    pub fn from_ordinal(i: usize) -> (r: CompOption)
        requires
            i < OPTION_COUNT,
        ensures
            r == Self::from_index(i as nat),
    {
        match i {
            0 => CompOption::comp_soul,
            1 => CompOption::comp_finaldoomteleport,
            2 => CompOption::comp_texwidthclamp,
            3 => CompOption::comp_clipmasked,
            4 => CompOption::comp_thingfloorlight,
            5 => CompOption::comp_musinfo,
            6 => CompOption::comp_moveblock,
            7 => CompOption::weapon_recoil,
            8 => CompOption::monsters_remember,
            9 => CompOption::monster_infighting,
            10 => CompOption::monster_backing,
            11 => CompOption::monster_avoid_hazards,
            12 => CompOption::monkeys,
            13 => CompOption::monster_friction,
            14 => CompOption::help_friends,
            15 => CompOption::player_helpers,
            16 => CompOption::friend_distance,
            17 => CompOption::dog_jumping,
            18 => CompOption::comp_telefrag,
            19 => CompOption::comp_dropoff,
            20 => CompOption::comp_vile,
            21 => CompOption::comp_pain,
            22 => CompOption::comp_skull,
            23 => CompOption::comp_blazing,
            24 => CompOption::comp_doorlight,
            25 => CompOption::comp_model,
            26 => CompOption::comp_god,
            27 => CompOption::comp_falloff,
            28 => CompOption::comp_floors,
            29 => CompOption::comp_skymap,
            30 => CompOption::comp_pursuit,
            31 => CompOption::comp_doorstuck,
            32 => CompOption::comp_staylift,
            33 => CompOption::comp_zombie,
            34 => CompOption::comp_stairs,
            35 => CompOption::comp_infcheat,
            36 => CompOption::comp_zerotags,
            37 => CompOption::comp_respawn,
            38 => CompOption::comp_ledgeblock,
            39 => CompOption::comp_friendlyspawn,
            40 => CompOption::comp_voodooscroller,
            41 => CompOption::comp_reservedlineflag,
            42 => CompOption::comp_666,
            43 => CompOption::comp_maskedanim,
            44 => CompOption::comp_ouchface,
            45 => CompOption::comp_maxhealth,
            _ => CompOption::comp_sound,
        }
    }

    /// Every option of the catalog, in catalog order.
    pub fn all() -> (r: Vec<CompOption>)
        ensures
            r@ == Self::all_spec(),
    {
        let mut r: Vec<CompOption> = Vec::new();
        let mut i: usize = 0;
        while i < OPTION_COUNT
            invariant
                i <= OPTION_COUNT,
                r@ == Self::all_spec().take(i as int),
            decreases OPTION_COUNT - i,
        {
            r.push(Self::from_ordinal(i));
            i = i + 1;
            assert(r@ =~= Self::all_spec().take(i as int));
        }
        assert(r@ =~= Self::all_spec());
        r
    }

    /// The wire name of the option.
    pub open spec fn name_spec(self) -> Seq<char> {
        match self {
            CompOption::comp_soul => "comp_soul"@,
            CompOption::comp_finaldoomteleport => "comp_finaldoomteleport"@,
            CompOption::comp_texwidthclamp => "comp_texwidthclamp"@,
            CompOption::comp_clipmasked => "comp_clipmasked"@,
            CompOption::comp_thingfloorlight => "comp_thingfloorlight"@,
            CompOption::comp_musinfo => "comp_musinfo"@,
            CompOption::comp_moveblock => "comp_moveblock"@,
            CompOption::weapon_recoil => "weapon_recoil"@,
            CompOption::monsters_remember => "monsters_remember"@,
            CompOption::monster_infighting => "monster_infighting"@,
            CompOption::monster_backing => "monster_backing"@,
            CompOption::monster_avoid_hazards => "monster_avoid_hazards"@,
            CompOption::monkeys => "monkeys"@,
            CompOption::monster_friction => "monster_friction"@,
            CompOption::help_friends => "help_friends"@,
            CompOption::player_helpers => "player_helpers"@,
            CompOption::friend_distance => "friend_distance"@,
            CompOption::dog_jumping => "dog_jumping"@,
            CompOption::comp_telefrag => "comp_telefrag"@,
            CompOption::comp_dropoff => "comp_dropoff"@,
            CompOption::comp_vile => "comp_vile"@,
            CompOption::comp_pain => "comp_pain"@,
            CompOption::comp_skull => "comp_skull"@,
            CompOption::comp_blazing => "comp_blazing"@,
            CompOption::comp_doorlight => "comp_doorlight"@,
            CompOption::comp_model => "comp_model"@,
            CompOption::comp_god => "comp_god"@,
            CompOption::comp_falloff => "comp_falloff"@,
            CompOption::comp_floors => "comp_floors"@,
            CompOption::comp_skymap => "comp_skymap"@,
            CompOption::comp_pursuit => "comp_pursuit"@,
            CompOption::comp_doorstuck => "comp_doorstuck"@,
            CompOption::comp_staylift => "comp_staylift"@,
            CompOption::comp_zombie => "comp_zombie"@,
            CompOption::comp_stairs => "comp_stairs"@,
            CompOption::comp_infcheat => "comp_infcheat"@,
            CompOption::comp_zerotags => "comp_zerotags"@,
            CompOption::comp_respawn => "comp_respawn"@,
            CompOption::comp_ledgeblock => "comp_ledgeblock"@,
            CompOption::comp_friendlyspawn => "comp_friendlyspawn"@,
            CompOption::comp_voodooscroller => "comp_voodooscroller"@,
            CompOption::comp_reservedlineflag => "comp_reservedlineflag"@,
            CompOption::comp_666 => "comp_666"@,
            CompOption::comp_maskedanim => "comp_maskedanim"@,
            CompOption::comp_ouchface => "comp_ouchface"@,
            CompOption::comp_maxhealth => "comp_maxhealth"@,
            CompOption::comp_sound => "comp_sound"@,
        }
    }

    /// The wire name of the option.
    pub fn name(self) -> (r: &'static str)
        ensures
            r@ == self.name_spec(),
    {
        match self {
            CompOption::comp_soul => "comp_soul",
            CompOption::comp_finaldoomteleport => "comp_finaldoomteleport",
            CompOption::comp_texwidthclamp => "comp_texwidthclamp",
            CompOption::comp_clipmasked => "comp_clipmasked",
            CompOption::comp_thingfloorlight => "comp_thingfloorlight",
            CompOption::comp_musinfo => "comp_musinfo",
            CompOption::comp_moveblock => "comp_moveblock",
            CompOption::weapon_recoil => "weapon_recoil",
            CompOption::monsters_remember => "monsters_remember",
            CompOption::monster_infighting => "monster_infighting",
            CompOption::monster_backing => "monster_backing",
            CompOption::monster_avoid_hazards => "monster_avoid_hazards",
            CompOption::monkeys => "monkeys",
            CompOption::monster_friction => "monster_friction",
            CompOption::help_friends => "help_friends",
            CompOption::player_helpers => "player_helpers",
            CompOption::friend_distance => "friend_distance",
            CompOption::dog_jumping => "dog_jumping",
            CompOption::comp_telefrag => "comp_telefrag",
            CompOption::comp_dropoff => "comp_dropoff",
            CompOption::comp_vile => "comp_vile",
            CompOption::comp_pain => "comp_pain",
            CompOption::comp_skull => "comp_skull",
            CompOption::comp_blazing => "comp_blazing",
            CompOption::comp_doorlight => "comp_doorlight",
            CompOption::comp_model => "comp_model",
            CompOption::comp_god => "comp_god",
            CompOption::comp_falloff => "comp_falloff",
            CompOption::comp_floors => "comp_floors",
            CompOption::comp_skymap => "comp_skymap",
            CompOption::comp_pursuit => "comp_pursuit",
            CompOption::comp_doorstuck => "comp_doorstuck",
            CompOption::comp_staylift => "comp_staylift",
            CompOption::comp_zombie => "comp_zombie",
            CompOption::comp_stairs => "comp_stairs",
            CompOption::comp_infcheat => "comp_infcheat",
            CompOption::comp_zerotags => "comp_zerotags",
            CompOption::comp_respawn => "comp_respawn",
            CompOption::comp_ledgeblock => "comp_ledgeblock",
            CompOption::comp_friendlyspawn => "comp_friendlyspawn",
            CompOption::comp_voodooscroller => "comp_voodooscroller",
            CompOption::comp_reservedlineflag => "comp_reservedlineflag",
            CompOption::comp_666 => "comp_666",
            CompOption::comp_maskedanim => "comp_maskedanim",
            CompOption::comp_ouchface => "comp_ouchface",
            CompOption::comp_maxhealth => "comp_maxhealth",
            CompOption::comp_sound => "comp_sound",
        }
    }

    /// The option whose wire name is `t`, if any.
    pub open spec fn lookup_spec(t: Seq<char>) -> Option<CompOption> {
        if exists|o: CompOption| o.name_spec() == t {
            Some(choose|o: CompOption| o.name_spec() == t)
        } else {
            None
        }
    }

    /// Names are told apart by their length, sixth character and last character.
    spec fn from_name_key(len: nat, sixth: char, last: char) -> CompOption {
        if len == 9 && sixth == 's' && last == 'l' {
            CompOption::comp_soul
        } else if len == 22 && sixth == 'f' && last == 't' {
            CompOption::comp_finaldoomteleport
        } else if len == 18 && sixth == 't' && last == 'p' {
            CompOption::comp_texwidthclamp
        } else if len == 15 && sixth == 'c' && last == 'd' {
            CompOption::comp_clipmasked
        } else if len == 20 && sixth == 't' && last == 't' {
            CompOption::comp_thingfloorlight
        } else if len == 12 && sixth == 'm' && last == 'o' {
            CompOption::comp_musinfo
        } else if len == 14 && sixth == 'm' && last == 'k' {
            CompOption::comp_moveblock
        } else if len == 13 && sixth == 'n' && last == 'l' {
            CompOption::weapon_recoil
        } else if len == 17 && sixth == 'e' && last == 'r' {
            CompOption::monsters_remember
        } else if len == 18 && sixth == 'e' && last == 'g' {
            CompOption::monster_infighting
        } else if len == 15 && sixth == 'e' && last == 'g' {
            CompOption::monster_backing
        } else if len == 21 && sixth == 'e' && last == 's' {
            CompOption::monster_avoid_hazards
        } else if len == 7 && sixth == 'y' && last == 's' {
            CompOption::monkeys
        } else if len == 16 && sixth == 'e' && last == 'n' {
            CompOption::monster_friction
        } else if len == 12 && sixth == 'f' && last == 's' {
            CompOption::help_friends
        } else if len == 14 && sixth == 'r' && last == 's' {
            CompOption::player_helpers
        } else if len == 15 && sixth == 'd' && last == 'e' {
            CompOption::friend_distance
        } else if len == 11 && sixth == 'u' && last == 'g' {
            CompOption::dog_jumping
        } else if len == 13 && sixth == 't' && last == 'g' {
            CompOption::comp_telefrag
        } else if len == 12 && sixth == 'd' && last == 'f' {
            CompOption::comp_dropoff
        } else if len == 9 && sixth == 'v' && last == 'e' {
            CompOption::comp_vile
        } else if len == 9 && sixth == 'p' && last == 'n' {
            CompOption::comp_pain
        } else if len == 10 && sixth == 's' && last == 'l' {
            CompOption::comp_skull
        } else if len == 12 && sixth == 'b' && last == 'g' {
            CompOption::comp_blazing
        } else if len == 14 && sixth == 'd' && last == 't' {
            CompOption::comp_doorlight
        } else if len == 10 && sixth == 'm' && last == 'l' {
            CompOption::comp_model
        } else if len == 8 && sixth == 'g' && last == 'd' {
            CompOption::comp_god
        } else if len == 12 && sixth == 'f' && last == 'f' {
            CompOption::comp_falloff
        } else if len == 11 && sixth == 'f' && last == 's' {
            CompOption::comp_floors
        } else if len == 11 && sixth == 's' && last == 'p' {
            CompOption::comp_skymap
        } else if len == 12 && sixth == 'p' && last == 't' {
            CompOption::comp_pursuit
        } else if len == 14 && sixth == 'd' && last == 'k' {
            CompOption::comp_doorstuck
        } else if len == 13 && sixth == 's' && last == 't' {
            CompOption::comp_staylift
        } else if len == 11 && sixth == 'z' && last == 'e' {
            CompOption::comp_zombie
        } else if len == 11 && sixth == 's' && last == 's' {
            CompOption::comp_stairs
        } else if len == 13 && sixth == 'i' && last == 't' {
            CompOption::comp_infcheat
        } else if len == 13 && sixth == 'z' && last == 's' {
            CompOption::comp_zerotags
        } else if len == 12 && sixth == 'r' && last == 'n' {
            CompOption::comp_respawn
        } else if len == 15 && sixth == 'l' && last == 'k' {
            CompOption::comp_ledgeblock
        } else if len == 18 && sixth == 'f' && last == 'n' {
            CompOption::comp_friendlyspawn
        } else if len == 19 && sixth == 'v' && last == 'r' {
            CompOption::comp_voodooscroller
        } else if len == 21 && sixth == 'r' && last == 'g' {
            CompOption::comp_reservedlineflag
        } else if len == 8 && sixth == '6' && last == '6' {
            CompOption::comp_666
        } else if len == 15 && sixth == 'm' && last == 'm' {
            CompOption::comp_maskedanim
        } else if len == 13 && sixth == 'o' && last == 'e' {
            CompOption::comp_ouchface
        } else if len == 14 && sixth == 'm' && last == 'h' {
            CompOption::comp_maxhealth
        } else {
            CompOption::comp_sound
        }
    }

    proof fn lemma_name_key(self)
        ensures
            Self::from_name_key(self.name_spec().len(), self.name_spec()[5], self.name_spec().last())
                == self,
    {
        broadcast use vstd::string::group_string_axioms;
        reveal_strlit("comp_soul");
        reveal_strlit("comp_finaldoomteleport");
        reveal_strlit("comp_texwidthclamp");
        reveal_strlit("comp_clipmasked");
        reveal_strlit("comp_thingfloorlight");
        reveal_strlit("comp_musinfo");
        reveal_strlit("comp_moveblock");
        reveal_strlit("weapon_recoil");
        reveal_strlit("monsters_remember");
        reveal_strlit("monster_infighting");
        reveal_strlit("monster_backing");
        reveal_strlit("monster_avoid_hazards");
        reveal_strlit("monkeys");
        reveal_strlit("monster_friction");
        reveal_strlit("help_friends");
        reveal_strlit("player_helpers");
        reveal_strlit("friend_distance");
        reveal_strlit("dog_jumping");
        reveal_strlit("comp_telefrag");
        reveal_strlit("comp_dropoff");
        reveal_strlit("comp_vile");
        reveal_strlit("comp_pain");
        reveal_strlit("comp_skull");
        reveal_strlit("comp_blazing");
        reveal_strlit("comp_doorlight");
        reveal_strlit("comp_model");
        reveal_strlit("comp_god");
        reveal_strlit("comp_falloff");
        reveal_strlit("comp_floors");
        reveal_strlit("comp_skymap");
        reveal_strlit("comp_pursuit");
        reveal_strlit("comp_doorstuck");
        reveal_strlit("comp_staylift");
        reveal_strlit("comp_zombie");
        reveal_strlit("comp_stairs");
        reveal_strlit("comp_infcheat");
        reveal_strlit("comp_zerotags");
        reveal_strlit("comp_respawn");
        reveal_strlit("comp_ledgeblock");
        reveal_strlit("comp_friendlyspawn");
        reveal_strlit("comp_voodooscroller");
        reveal_strlit("comp_reservedlineflag");
        reveal_strlit("comp_666");
        reveal_strlit("comp_maskedanim");
        reveal_strlit("comp_ouchface");
        reveal_strlit("comp_maxhealth");
        reveal_strlit("comp_sound");
    }

    /// Whether `c` may appear in an option name.
    pub open spec fn is_name_char(c: char) -> bool {
        ||| 'a' <= c <= 'z'
        ||| '0' <= c <= '9'
        ||| c == '_'
    }

    /// Every option name is a non-empty run of lower-case letters, digits and underscores.
    pub proof fn lemma_name_chars(self)
        ensures
            self.name_spec().len() > 0,
            forall|i: int| 0 <= i < self.name_spec().len() ==> Self::is_name_char(#[trigger] self.name_spec()[i]),
    {
        broadcast use vstd::string::group_string_axioms;
        match self {
            CompOption::comp_soul => {
                reveal_strlit("comp_soul");
            },
            CompOption::comp_finaldoomteleport => {
                reveal_strlit("comp_finaldoomteleport");
            },
            CompOption::comp_texwidthclamp => {
                reveal_strlit("comp_texwidthclamp");
            },
            CompOption::comp_clipmasked => {
                reveal_strlit("comp_clipmasked");
            },
            CompOption::comp_thingfloorlight => {
                reveal_strlit("comp_thingfloorlight");
            },
            CompOption::comp_musinfo => {
                reveal_strlit("comp_musinfo");
            },
            CompOption::comp_moveblock => {
                reveal_strlit("comp_moveblock");
            },
            CompOption::weapon_recoil => {
                reveal_strlit("weapon_recoil");
            },
            CompOption::monsters_remember => {
                reveal_strlit("monsters_remember");
            },
            CompOption::monster_infighting => {
                reveal_strlit("monster_infighting");
            },
            CompOption::monster_backing => {
                reveal_strlit("monster_backing");
            },
            CompOption::monster_avoid_hazards => {
                reveal_strlit("monster_avoid_hazards");
            },
            CompOption::monkeys => {
                reveal_strlit("monkeys");
            },
            CompOption::monster_friction => {
                reveal_strlit("monster_friction");
            },
            CompOption::help_friends => {
                reveal_strlit("help_friends");
            },
            CompOption::player_helpers => {
                reveal_strlit("player_helpers");
            },
            CompOption::friend_distance => {
                reveal_strlit("friend_distance");
            },
            CompOption::dog_jumping => {
                reveal_strlit("dog_jumping");
            },
            CompOption::comp_telefrag => {
                reveal_strlit("comp_telefrag");
            },
            CompOption::comp_dropoff => {
                reveal_strlit("comp_dropoff");
            },
            CompOption::comp_vile => {
                reveal_strlit("comp_vile");
            },
            CompOption::comp_pain => {
                reveal_strlit("comp_pain");
            },
            CompOption::comp_skull => {
                reveal_strlit("comp_skull");
            },
            CompOption::comp_blazing => {
                reveal_strlit("comp_blazing");
            },
            CompOption::comp_doorlight => {
                reveal_strlit("comp_doorlight");
            },
            CompOption::comp_model => {
                reveal_strlit("comp_model");
            },
            CompOption::comp_god => {
                reveal_strlit("comp_god");
            },
            CompOption::comp_falloff => {
                reveal_strlit("comp_falloff");
            },
            CompOption::comp_floors => {
                reveal_strlit("comp_floors");
            },
            CompOption::comp_skymap => {
                reveal_strlit("comp_skymap");
            },
            CompOption::comp_pursuit => {
                reveal_strlit("comp_pursuit");
            },
            CompOption::comp_doorstuck => {
                reveal_strlit("comp_doorstuck");
            },
            CompOption::comp_staylift => {
                reveal_strlit("comp_staylift");
            },
            CompOption::comp_zombie => {
                reveal_strlit("comp_zombie");
            },
            CompOption::comp_stairs => {
                reveal_strlit("comp_stairs");
            },
            CompOption::comp_infcheat => {
                reveal_strlit("comp_infcheat");
            },
            CompOption::comp_zerotags => {
                reveal_strlit("comp_zerotags");
            },
            CompOption::comp_respawn => {
                reveal_strlit("comp_respawn");
            },
            CompOption::comp_ledgeblock => {
                reveal_strlit("comp_ledgeblock");
            },
            CompOption::comp_friendlyspawn => {
                reveal_strlit("comp_friendlyspawn");
            },
            CompOption::comp_voodooscroller => {
                reveal_strlit("comp_voodooscroller");
            },
            CompOption::comp_reservedlineflag => {
                reveal_strlit("comp_reservedlineflag");
            },
            CompOption::comp_666 => {
                reveal_strlit("comp_666");
            },
            CompOption::comp_maskedanim => {
                reveal_strlit("comp_maskedanim");
            },
            CompOption::comp_ouchface => {
                reveal_strlit("comp_ouchface");
            },
            CompOption::comp_maxhealth => {
                reveal_strlit("comp_maxhealth");
            },
            CompOption::comp_sound => {
                reveal_strlit("comp_sound");
            },
        }
    }

    /// No two options share a wire name.
    pub proof fn lemma_name_injective(a: CompOption, b: CompOption)
        ensures
            a.name_spec() == b.name_spec() ==> a == b,
    {
        a.lemma_name_key();
        b.lemma_name_key();
    }

    /// Looking up an option's own name gives the option back.
    pub proof fn lemma_lookup_name(self)
        ensures
            Self::lookup_spec(self.name_spec()) == Some(self),
    {
        let o = choose|o: CompOption| o.name_spec() == self.name_spec();
        Self::lemma_name_injective(o, self);
    }

    /// The option whose wire name is `t[from..to]`; names are case-sensitive.
    pub fn lookup(t: &Vec<char>, from: usize, to: usize) -> (r: Option<CompOption>)
        requires
            from <= to <= t@.len(),
        ensures
            r == Self::lookup_spec(t@.subrange(from as int, to as int)),
    {
        let ghost word = t@.subrange(from as int, to as int);
        let mut i: usize = 0;
        while i < OPTION_COUNT
            invariant
                from <= to <= t@.len(),
                word == t@.subrange(from as int, to as int),
                i <= OPTION_COUNT,
                forall|j: int| 0 <= j < i ==> (#[trigger] Self::from_index(j as nat)).name_spec() != word,
            decreases OPTION_COUNT - i,
        {
            let o = Self::from_ordinal(i);
            if slice_is(t, from, to, o.name()) {
                proof {
                    let c = choose|c: CompOption| c.name_spec() == word;
                    Self::lemma_name_injective(c, o);
                }
                return Some(o);
            }
            i = i + 1;
        }
        assert forall|o: CompOption| o.name_spec() != word by {
            o.lemma_index();
            let j = o.index() as int;
            assert(Self::from_index(j as nat).name_spec() != word);
        }
        None
    }

    /// The option named `s`, if any.
    pub fn from_name(s: &str) -> (r: Option<CompOption>)
        ensures
            r == Self::lookup_spec(s@),
    {
        let t = crate::text::chars_of(s);
        assert(t@.subrange(0, t@.len() as int) =~= t@);
        Self::lookup(&t, 0, t.len())
    }

    /// The oldest tier that recognises the option.
    pub open spec fn min_tier(self) -> Executable {
        match self {
            CompOption::comp_soul | CompOption::comp_finaldoomteleport => Executable::Doom1_9,
            CompOption::comp_texwidthclamp
            | CompOption::comp_clipmasked => Executable::LimitRemoving,
            CompOption::comp_thingfloorlight => Executable::Boom2_02,
            CompOption::comp_musinfo => Executable::CompLevel9,
            CompOption::comp_ledgeblock
            | CompOption::comp_friendlyspawn
            | CompOption::comp_voodooscroller
            | CompOption::comp_reservedlineflag => Executable::MBF21,
            _ => Executable::MBF,
        }
    }

    /// The newest tier in which the option is still meaningful.
    pub open spec fn max_tier(self) -> Executable {
        match self {
            CompOption::comp_moveblock
            | CompOption::comp_666
            | CompOption::comp_maskedanim
            | CompOption::comp_ouchface
            | CompOption::comp_maxhealth
            | CompOption::comp_sound => Executable::MBF,
            _ => Executable::ID24,
        }
    }

    /// Whether the option may appear in a document for `exe`.
    pub open spec fn legal_for(self, exe: Executable) -> bool {
        self.min_tier().rank() <= exe.rank() <= self.max_tier().rank()
    }

    /// The oldest tier that recognises the option.
    pub fn min_exe(self) -> (r: Executable)
        ensures
            r == self.min_tier(),
    {
        match self {
            CompOption::comp_soul | CompOption::comp_finaldoomteleport => Executable::Doom1_9,
            CompOption::comp_texwidthclamp
            | CompOption::comp_clipmasked => Executable::LimitRemoving,
            CompOption::comp_thingfloorlight => Executable::Boom2_02,
            CompOption::comp_musinfo => Executable::CompLevel9,
            CompOption::comp_ledgeblock
            | CompOption::comp_friendlyspawn
            | CompOption::comp_voodooscroller
            | CompOption::comp_reservedlineflag => Executable::MBF21,
            _ => Executable::MBF,
        }
    }

    /// The newest tier in which the option is still meaningful.
    pub fn max_exe(self) -> (r: Executable)
        ensures
            r == self.max_tier(),
    {
        match self {
            CompOption::comp_moveblock
            | CompOption::comp_666
            | CompOption::comp_maskedanim
            | CompOption::comp_ouchface
            | CompOption::comp_maxhealth
            | CompOption::comp_sound => Executable::MBF,
            _ => Executable::ID24,
        }
    }

    /// Whether the option may appear in a document for `exe`.
    pub fn is_legal_for(self, exe: Executable) -> (r: bool)
        ensures
            r == self.legal_for(exe),
    {
        self.min_exe().level() <= exe.level() && exe.level() <= self.max_exe().level()
    }

    /// Short and long description of the option, for display.
    pub open spec fn description_spec(self) -> (Seq<char>, Seq<char>) {
        match self {
            CompOption::comp_soul => (
                "Lost souls don't bounce off flat surfaces"@,
                "this is a longer description for the option that\n\
                 might include information like the default value\n\
                 for the different executable levels\n\
                 this one should mention the difference between\n\
                 doom 1 and 2"@
            ),
            CompOption::comp_finaldoomteleport => (
                "Use Final Doom teleport behavior"@,
                "mention the z thing here"@
            ),
            CompOption::comp_texwidthclamp => (
                "Clamp texture widths to powers of 2"@,
                "Non-power of 2 texture widths will be\n\
                 rounded down to the nearest power of 2"@
            ),
            CompOption::comp_clipmasked => (
                "Clip 2-sided middle textures"@,
                "lorem ipsum"@
            ),
            CompOption::comp_thingfloorlight => (
                "Light things based on floor lighting"@,
                "If enabled, things are affected by floor\n\
                 light transfers. If disabled, things are\n\
                 always lit by the sector light."@
            ),
            CompOption::comp_musinfo => (
                "Enable MUSINFO"@,
                "lorem ipsum"@
            ),
            CompOption::comp_moveblock => (
                "Use vanilla movement clipping code"@,
                "Effects of this include mancubus\n\
                 fireballs clipping through some walls"@
            ),
            CompOption::weapon_recoil => (
                "Push player back when firing weapons"@,
                "lorem ipsum"@
            ),
            CompOption::monsters_remember => (
                "friendly monsters remember targets idk"@,
                "lorem ipsum"@
            ),
            CompOption::monster_infighting => (
                "Enable monster infighting"@,
                "lorem ipsum"@
            ),
            CompOption::monster_backing => (
                "Ranged monsters back away from melee targets"@,
                "lorem ipsum"@
            ),
            CompOption::monster_avoid_hazards => (
                "Monsters avoid environmental hazards"@,
                "this includes crushing ceilings,\n\
                 but what about damaging sectors? idk"@
            ),
            CompOption::monkeys => (
                "Monsters can climb steep stairs"@,
                "banana heehoo"@
            ),
            CompOption::monster_friction => (
                "make friction affect monsters"@,
                "lorem ipsum"@
            ),
            CompOption::help_friends => (
                "monsters help dying friends"@,
                "lorem ipsum"@
            ),
            CompOption::player_helpers => (
                "# of helper dogs"@,
                "woof woof"@
            ),
            CompOption::friend_distance => (
                "friend distance"@,
                "units are map units i'd assume"@
            ),
            CompOption::dog_jumping => (
                "Allow helper dogs to jump from high ledges"@,
                "woof woof"@
            ),
            CompOption::comp_telefrag => (
                "Allow all monsters to telefrag on MAP30"@,
                "lorem ipsum"@
            ),
            CompOption::comp_dropoff => (
                "Prevent enemies from walking off ledges"@,
                "deprecated in favor of comp_ledgeblock?"@
            ),
            CompOption::comp_vile => (
                "Allow Arch-viles to create ghosts"@,
                "lorem ipsum"@
            ),
            CompOption::comp_pain => (
                "Prevent Pain Elementals from spawning over the Lost Soul limit"@,
                "lorem ipsum"@
            ),
            CompOption::comp_skull => (
                "Allow lost souls to spawn past impassable lines"@,
                "lorem ipsum"@
            ),
            CompOption::comp_blazing => (
                "blazing door double sounds"@,
                "lorem ipsum"@
            ),
            CompOption::comp_doorlight => (
                "abrupt door lighting changes?"@,
                "what does this even mean"@
            ),
            CompOption::comp_model => (
                "Use vanilla linedef trigger model"@,
                "what behavior does this result in?"@
            ),
            CompOption::comp_god => (
                "Use vanilla IDDQD behavior"@,
                "God mode is disabled if the player\n\
                 enters a sector with special 11.\n\
                 Damage over 1000 is not prevented."@
            ),
            CompOption::comp_falloff => (
                "dont pull hanging monsters off ledges"@,
                "lorem ipsum"@
            ),
            CompOption::comp_floors => (
                "Use vanilla floor movement"@,
                "Moving sectors are block when\n\
                 containing things that touch walls\n\
                 or ceilings"@
            ),
            CompOption::comp_skymap => (
                "Don't apply invulnerability affect to skies"@,
                "lorem ipsum"@
            ),
            CompOption::comp_pursuit => (
                "monsters can infight immediately"@,
                "disable the annoying mbf thing"@
            ),
            CompOption::comp_doorstuck => (
                "monsters get stuck on door tracks"@,
                "lorem ipsum"@
            ),
            CompOption::comp_staylift => (
                "monsters randomly walk off lifts their target is on"@,
                "disable to keep them staying on the lifts"@
            ),
            CompOption::comp_zombie => (
                "Allow dead players to activate linedefs"@,
                "lorem ipsum"@
            ),
            CompOption::comp_stairs => (
                "use vanilla stairbuilder bugs i think?"@,
                "lorem ipsum"@
            ),
            CompOption::comp_infcheat => (
                "Infinite duration for IDBEHOLD powerups"@,
                "makes em toggleable :)"@
            ),
            CompOption::comp_zerotags => (
                "Allow linedef actions with tag 0"@,
                "lorem ipsum"@
            ),
            CompOption::comp_respawn => (
                "Respawn icon of sin monsters at 0,0"@,
                "lorem ipsum"@
            ),
            CompOption::comp_ledgeblock => (
                "monsters are blocked by ledges except when scrolling"@,
                "lorem ipsum"@
            ),
            CompOption::comp_friendlyspawn => (
                "spawned things inherit friendly flag"@,
                "lorem ipsum"@
            ),
            CompOption::comp_voodooscroller => (
                "smth about voodoo doll scroll speed"@,
                "lorem ipsum"@
            ),
            CompOption::comp_reservedlineflag => (
                "line flag 0x0800 disabled extended flags"@,
                "wtf does this mean"@
            ),
            CompOption::comp_666 => (
                "Use pre-Ultimate Doom boss death checks"@,
                "lorem ipsum"@
            ),
            CompOption::comp_maskedanim => (
                "Disable animations for 2-sided midtextures"@,
                "Doom v1.666 behavior?"@
            ),
            CompOption::comp_ouchface => (
                "Use vanilla OUCHFACE behavior"@,
                "why does anyone care"@
            ),
            CompOption::comp_maxhealth => (
                "Only apply DeHackEd \"Max Health\" to health bonuses"@,
                "lorem ipsum"@
            ),
            CompOption::comp_sound => (
                "use sound errors?"@,
                "lorem ipsum"@
            ),
        }
    }

    /// Every option has a short and a long description, neither empty.
    pub proof fn lemma_description_nonempty(self)
        ensures
            self.description_spec().0.len() > 0,
            self.description_spec().1.len() > 0,
    {
        broadcast use vstd::string::group_string_axioms;
        match self {
            CompOption::comp_soul => {
                reveal_strlit("Lost souls don't bounce off flat surfaces");
                reveal_strlit("this is a longer description for the option that\n\
                 might include information like the default value\n\
                 for the different executable levels\n\
                 this one should mention the difference between\n\
                 doom 1 and 2");
            },
            CompOption::comp_finaldoomteleport => {
                reveal_strlit("Use Final Doom teleport behavior");
                reveal_strlit("mention the z thing here");
            },
            CompOption::comp_texwidthclamp => {
                reveal_strlit("Clamp texture widths to powers of 2");
                reveal_strlit("Non-power of 2 texture widths will be\n\
                 rounded down to the nearest power of 2");
            },
            CompOption::comp_clipmasked => {
                reveal_strlit("Clip 2-sided middle textures");
                reveal_strlit("lorem ipsum");
            },
            CompOption::comp_thingfloorlight => {
                reveal_strlit("Light things based on floor lighting");
                reveal_strlit("If enabled, things are affected by floor\n\
                 light transfers. If disabled, things are\n\
                 always lit by the sector light.");
            },
            CompOption::comp_musinfo => {
                reveal_strlit("Enable MUSINFO");
                reveal_strlit("lorem ipsum");
            },
            CompOption::comp_moveblock => {
                reveal_strlit("Use vanilla movement clipping code");
                reveal_strlit("Effects of this include mancubus\n\
                 fireballs clipping through some walls");
            },
            CompOption::weapon_recoil => {
                reveal_strlit("Push player back when firing weapons");
                reveal_strlit("lorem ipsum");
            },
            CompOption::monsters_remember => {
                reveal_strlit("friendly monsters remember targets idk");
                reveal_strlit("lorem ipsum");
            },
            CompOption::monster_infighting => {
                reveal_strlit("Enable monster infighting");
                reveal_strlit("lorem ipsum");
            },
            CompOption::monster_backing => {
                reveal_strlit("Ranged monsters back away from melee targets");
                reveal_strlit("lorem ipsum");
            },
            CompOption::monster_avoid_hazards => {
                reveal_strlit("Monsters avoid environmental hazards");
                reveal_strlit("this includes crushing ceilings,\n\
                 but what about damaging sectors? idk");
            },
            CompOption::monkeys => {
                reveal_strlit("Monsters can climb steep stairs");
                reveal_strlit("banana heehoo");
            },
            CompOption::monster_friction => {
                reveal_strlit("make friction affect monsters");
                reveal_strlit("lorem ipsum");
            },
            CompOption::help_friends => {
                reveal_strlit("monsters help dying friends");
                reveal_strlit("lorem ipsum");
            },
            CompOption::player_helpers => {
                reveal_strlit("# of helper dogs");
                reveal_strlit("woof woof");
            },
            CompOption::friend_distance => {
                reveal_strlit("friend distance");
                reveal_strlit("units are map units i'd assume");
            },
            CompOption::dog_jumping => {
                reveal_strlit("Allow helper dogs to jump from high ledges");
                reveal_strlit("woof woof");
            },
            CompOption::comp_telefrag => {
                reveal_strlit("Allow all monsters to telefrag on MAP30");
                reveal_strlit("lorem ipsum");
            },
            CompOption::comp_dropoff => {
                reveal_strlit("Prevent enemies from walking off ledges");
                reveal_strlit("deprecated in favor of comp_ledgeblock?");
            },
            CompOption::comp_vile => {
                reveal_strlit("Allow Arch-viles to create ghosts");
                reveal_strlit("lorem ipsum");
            },
            CompOption::comp_pain => {
                reveal_strlit("Prevent Pain Elementals from spawning over the Lost Soul limit");
                reveal_strlit("lorem ipsum");
            },
            CompOption::comp_skull => {
                reveal_strlit("Allow lost souls to spawn past impassable lines");
                reveal_strlit("lorem ipsum");
            },
            CompOption::comp_blazing => {
                reveal_strlit("blazing door double sounds");
                reveal_strlit("lorem ipsum");
            },
            CompOption::comp_doorlight => {
                reveal_strlit("abrupt door lighting changes?");
                reveal_strlit("what does this even mean");
            },
            CompOption::comp_model => {
                reveal_strlit("Use vanilla linedef trigger model");
                reveal_strlit("what behavior does this result in?");
            },
            CompOption::comp_god => {
                reveal_strlit("Use vanilla IDDQD behavior");
                reveal_strlit("God mode is disabled if the player\n\
                 enters a sector with special 11.\n\
                 Damage over 1000 is not prevented.");
            },
            CompOption::comp_falloff => {
                reveal_strlit("dont pull hanging monsters off ledges");
                reveal_strlit("lorem ipsum");
            },
            CompOption::comp_floors => {
                reveal_strlit("Use vanilla floor movement");
                reveal_strlit("Moving sectors are block when\n\
                 containing things that touch walls\n\
                 or ceilings");
            },
            CompOption::comp_skymap => {
                reveal_strlit("Don't apply invulnerability affect to skies");
                reveal_strlit("lorem ipsum");
            },
            CompOption::comp_pursuit => {
                reveal_strlit("monsters can infight immediately");
                reveal_strlit("disable the annoying mbf thing");
            },
            CompOption::comp_doorstuck => {
                reveal_strlit("monsters get stuck on door tracks");
                reveal_strlit("lorem ipsum");
            },
            CompOption::comp_staylift => {
                reveal_strlit("monsters randomly walk off lifts their target is on");
                reveal_strlit("disable to keep them staying on the lifts");
            },
            CompOption::comp_zombie => {
                reveal_strlit("Allow dead players to activate linedefs");
                reveal_strlit("lorem ipsum");
            },
            CompOption::comp_stairs => {
                reveal_strlit("use vanilla stairbuilder bugs i think?");
                reveal_strlit("lorem ipsum");
            },
            CompOption::comp_infcheat => {
                reveal_strlit("Infinite duration for IDBEHOLD powerups");
                reveal_strlit("makes em toggleable :)");
            },
            CompOption::comp_zerotags => {
                reveal_strlit("Allow linedef actions with tag 0");
                reveal_strlit("lorem ipsum");
            },
            CompOption::comp_respawn => {
                reveal_strlit("Respawn icon of sin monsters at 0,0");
                reveal_strlit("lorem ipsum");
            },
            CompOption::comp_ledgeblock => {
                reveal_strlit("monsters are blocked by ledges except when scrolling");
                reveal_strlit("lorem ipsum");
            },
            CompOption::comp_friendlyspawn => {
                reveal_strlit("spawned things inherit friendly flag");
                reveal_strlit("lorem ipsum");
            },
            CompOption::comp_voodooscroller => {
                reveal_strlit("smth about voodoo doll scroll speed");
                reveal_strlit("lorem ipsum");
            },
            CompOption::comp_reservedlineflag => {
                reveal_strlit("line flag 0x0800 disabled extended flags");
                reveal_strlit("wtf does this mean");
            },
            CompOption::comp_666 => {
                reveal_strlit("Use pre-Ultimate Doom boss death checks");
                reveal_strlit("lorem ipsum");
            },
            CompOption::comp_maskedanim => {
                reveal_strlit("Disable animations for 2-sided midtextures");
                reveal_strlit("Doom v1.666 behavior?");
            },
            CompOption::comp_ouchface => {
                reveal_strlit("Use vanilla OUCHFACE behavior");
                reveal_strlit("why does anyone care");
            },
            CompOption::comp_maxhealth => {
                reveal_strlit("Only apply DeHackEd \"Max Health\" to health bonuses");
                reveal_strlit("lorem ipsum");
            },
            CompOption::comp_sound => {
                reveal_strlit("use sound errors?");
                reveal_strlit("lorem ipsum");
            },
        }
    }

    /// Short and long description of the option, for display.
    pub fn description(self) -> (r: (&'static str, &'static str))
        ensures
            r.0@ == self.description_spec().0,
            r.1@ == self.description_spec().1,
            r.0@.len() > 0,
            r.1@.len() > 0,
    {
        proof {
            self.lemma_description_nonempty();
        }
        match self {
            CompOption::comp_soul => (
                "Lost souls don't bounce off flat surfaces",
                "this is a longer description for the option that\n\
                 might include information like the default value\n\
                 for the different executable levels\n\
                 this one should mention the difference between\n\
                 doom 1 and 2"
            ),
            CompOption::comp_finaldoomteleport => (
                "Use Final Doom teleport behavior",
                "mention the z thing here"
            ),
            CompOption::comp_texwidthclamp => (
                "Clamp texture widths to powers of 2",
                "Non-power of 2 texture widths will be\n\
                 rounded down to the nearest power of 2"
            ),
            CompOption::comp_clipmasked => (
                "Clip 2-sided middle textures",
                "lorem ipsum"
            ),
            CompOption::comp_thingfloorlight => (
                "Light things based on floor lighting",
                "If enabled, things are affected by floor\n\
                 light transfers. If disabled, things are\n\
                 always lit by the sector light."
            ),
            CompOption::comp_musinfo => (
                "Enable MUSINFO",
                "lorem ipsum"
            ),
            CompOption::comp_moveblock => (
                "Use vanilla movement clipping code",
                "Effects of this include mancubus\n\
                 fireballs clipping through some walls"
            ),
            CompOption::weapon_recoil => (
                "Push player back when firing weapons",
                "lorem ipsum"
            ),
            CompOption::monsters_remember => (
                "friendly monsters remember targets idk",
                "lorem ipsum"
            ),
            CompOption::monster_infighting => (
                "Enable monster infighting",
                "lorem ipsum"
            ),
            CompOption::monster_backing => (
                "Ranged monsters back away from melee targets",
                "lorem ipsum"
            ),
            CompOption::monster_avoid_hazards => (
                "Monsters avoid environmental hazards",
                "this includes crushing ceilings,\n\
                 but what about damaging sectors? idk"
            ),
            CompOption::monkeys => (
                "Monsters can climb steep stairs",
                "banana heehoo"
            ),
            CompOption::monster_friction => (
                "make friction affect monsters",
                "lorem ipsum"
            ),
            CompOption::help_friends => (
                "monsters help dying friends",
                "lorem ipsum"
            ),
            CompOption::player_helpers => (
                "# of helper dogs",
                "woof woof"
            ),
            CompOption::friend_distance => (
                "friend distance",
                "units are map units i'd assume"
            ),
            CompOption::dog_jumping => (
                "Allow helper dogs to jump from high ledges",
                "woof woof"
            ),
            CompOption::comp_telefrag => (
                "Allow all monsters to telefrag on MAP30",
                "lorem ipsum"
            ),
            CompOption::comp_dropoff => (
                "Prevent enemies from walking off ledges",
                "deprecated in favor of comp_ledgeblock?"
            ),
            CompOption::comp_vile => (
                "Allow Arch-viles to create ghosts",
                "lorem ipsum"
            ),
            CompOption::comp_pain => (
                "Prevent Pain Elementals from spawning over the Lost Soul limit",
                "lorem ipsum"
            ),
            CompOption::comp_skull => (
                "Allow lost souls to spawn past impassable lines",
                "lorem ipsum"
            ),
            CompOption::comp_blazing => (
                "blazing door double sounds",
                "lorem ipsum"
            ),
            CompOption::comp_doorlight => (
                "abrupt door lighting changes?",
                "what does this even mean"
            ),
            CompOption::comp_model => (
                "Use vanilla linedef trigger model",
                "what behavior does this result in?"
            ),
            CompOption::comp_god => (
                "Use vanilla IDDQD behavior",
                "God mode is disabled if the player\n\
                 enters a sector with special 11.\n\
                 Damage over 1000 is not prevented."
            ),
            CompOption::comp_falloff => (
                "dont pull hanging monsters off ledges",
                "lorem ipsum"
            ),
            CompOption::comp_floors => (
                "Use vanilla floor movement",
                "Moving sectors are block when\n\
                 containing things that touch walls\n\
                 or ceilings"
            ),
            CompOption::comp_skymap => (
                "Don't apply invulnerability affect to skies",
                "lorem ipsum"
            ),
            CompOption::comp_pursuit => (
                "monsters can infight immediately",
                "disable the annoying mbf thing"
            ),
            CompOption::comp_doorstuck => (
                "monsters get stuck on door tracks",
                "lorem ipsum"
            ),
            CompOption::comp_staylift => (
                "monsters randomly walk off lifts their target is on",
                "disable to keep them staying on the lifts"
            ),
            CompOption::comp_zombie => (
                "Allow dead players to activate linedefs",
                "lorem ipsum"
            ),
            CompOption::comp_stairs => (
                "use vanilla stairbuilder bugs i think?",
                "lorem ipsum"
            ),
            CompOption::comp_infcheat => (
                "Infinite duration for IDBEHOLD powerups",
                "makes em toggleable :)"
            ),
            CompOption::comp_zerotags => (
                "Allow linedef actions with tag 0",
                "lorem ipsum"
            ),
            CompOption::comp_respawn => (
                "Respawn icon of sin monsters at 0,0",
                "lorem ipsum"
            ),
            CompOption::comp_ledgeblock => (
                "monsters are blocked by ledges except when scrolling",
                "lorem ipsum"
            ),
            CompOption::comp_friendlyspawn => (
                "spawned things inherit friendly flag",
                "lorem ipsum"
            ),
            CompOption::comp_voodooscroller => (
                "smth about voodoo doll scroll speed",
                "lorem ipsum"
            ),
            CompOption::comp_reservedlineflag => (
                "line flag 0x0800 disabled extended flags",
                "wtf does this mean"
            ),
            CompOption::comp_666 => (
                "Use pre-Ultimate Doom boss death checks",
                "lorem ipsum"
            ),
            CompOption::comp_maskedanim => (
                "Disable animations for 2-sided midtextures",
                "Doom v1.666 behavior?"
            ),
            CompOption::comp_ouchface => (
                "Use vanilla OUCHFACE behavior",
                "why does anyone care"
            ),
            CompOption::comp_maxhealth => (
                "Only apply DeHackEd \"Max Health\" to health bonuses",
                "lorem ipsum"
            ),
            CompOption::comp_sound => (
                "use sound errors?",
                "lorem ipsum"
            ),
        }
    }

    /// The shape of value the option holds.
    pub open spec fn shape(self) -> ValueShape {
        match self {
            CompOption::comp_texwidthclamp => ValueShape::TexWidthClamp,
            CompOption::comp_clipmasked => ValueShape::ClipMasked,
            CompOption::player_helpers => ValueShape::Int(3),
            CompOption::friend_distance => ValueShape::Int(999),
            _ => ValueShape::Bool,
        }
    }

    /// The shape of value the option holds.
    pub fn value_shape(self) -> (r: ValueShape)
        ensures
            r == self.shape(),
    {
        match self {
            CompOption::comp_texwidthclamp => ValueShape::TexWidthClamp,
            CompOption::comp_clipmasked => ValueShape::ClipMasked,
            CompOption::player_helpers => ValueShape::Int(3),
            CompOption::friend_distance => ValueShape::Int(999),
            _ => ValueShape::Bool,
        }
    }

    /// The default of the option under a tier, from the per-tier default tables;
    /// `None` where the tier records no default for it, or no tier is known.
    pub open spec fn default_spec(self, exe: Option<Executable>) -> Option<OptionValue> {
        match exe {
            Some(Executable::Doom1_9) => match self {
                CompOption::comp_soul
                | CompOption::comp_finaldoomteleport => Some(OptionValue::Bool(false)),
                _ => None,
            },
            Some(Executable::LimitRemoving) => match self {
                CompOption::comp_soul
                | CompOption::comp_finaldoomteleport => Some(OptionValue::Bool(false)),
                CompOption::comp_texwidthclamp => Some(OptionValue::TexWidthClamp(TexWidthClamp::All)),
                CompOption::comp_clipmasked => Some(OptionValue::ClipMasked(ClipMasked::Off)),
                _ => None,
            },
            Some(Executable::Boom2_02) => match self {
                CompOption::comp_soul
                | CompOption::comp_finaldoomteleport
                | CompOption::comp_thingfloorlight => Some(OptionValue::Bool(false)),
                CompOption::comp_texwidthclamp => Some(OptionValue::TexWidthClamp(TexWidthClamp::All)),
                CompOption::comp_clipmasked => Some(OptionValue::ClipMasked(ClipMasked::MultipatchOnly)),
                _ => None,
            },
            Some(Executable::CompLevel9) => match self {
                CompOption::comp_soul
                | CompOption::comp_finaldoomteleport => Some(OptionValue::Bool(false)),
                CompOption::comp_texwidthclamp => Some(OptionValue::TexWidthClamp(TexWidthClamp::SolidWallsOnly)),
                CompOption::comp_clipmasked => Some(OptionValue::ClipMasked(ClipMasked::All)),
                CompOption::comp_thingfloorlight
                | CompOption::comp_musinfo => Some(OptionValue::Bool(true)),
                _ => None,
            },
            Some(Executable::MBF) => match self {
                CompOption::comp_soul
                | CompOption::comp_finaldoomteleport
                | CompOption::weapon_recoil
                | CompOption::monster_backing
                | CompOption::monkeys
                | CompOption::comp_telefrag
                | CompOption::comp_dropoff
                | CompOption::comp_vile
                | CompOption::comp_pain
                | CompOption::comp_skull
                | CompOption::comp_blazing
                | CompOption::comp_doorlight
                | CompOption::comp_model
                | CompOption::comp_god
                | CompOption::comp_falloff
                | CompOption::comp_floors
                | CompOption::comp_skymap
                | CompOption::comp_doorstuck
                | CompOption::comp_staylift
                | CompOption::comp_zombie
                | CompOption::comp_infcheat
                | CompOption::comp_zerotags
                | CompOption::comp_respawn
                | CompOption::comp_666
                | CompOption::comp_maxhealth => Some(OptionValue::Bool(false)),
                CompOption::comp_texwidthclamp => Some(OptionValue::TexWidthClamp(TexWidthClamp::SolidWallsOnly)),
                CompOption::comp_clipmasked => Some(OptionValue::ClipMasked(ClipMasked::All)),
                CompOption::comp_thingfloorlight
                | CompOption::comp_musinfo
                | CompOption::monsters_remember
                | CompOption::monster_infighting
                | CompOption::monster_avoid_hazards
                | CompOption::monster_friction
                | CompOption::help_friends
                | CompOption::dog_jumping
                | CompOption::comp_pursuit
                | CompOption::comp_stairs
                | CompOption::comp_moveblock
                | CompOption::comp_maskedanim
                | CompOption::comp_ouchface
                | CompOption::comp_sound => Some(OptionValue::Bool(true)),
                CompOption::player_helpers => Some(OptionValue::Int(0)),
                CompOption::friend_distance => Some(OptionValue::Int(128)),
                _ => None,
            },
            Some(Executable::MBF21 | Executable::ID24) => match self {
                CompOption::comp_soul
                | CompOption::comp_finaldoomteleport
                | CompOption::weapon_recoil
                | CompOption::monster_backing
                | CompOption::monkeys
                | CompOption::help_friends
                | CompOption::comp_telefrag
                | CompOption::comp_dropoff
                | CompOption::comp_vile
                | CompOption::comp_pain
                | CompOption::comp_skull
                | CompOption::comp_blazing
                | CompOption::comp_doorlight
                | CompOption::comp_model
                | CompOption::comp_god
                | CompOption::comp_falloff
                | CompOption::comp_floors
                | CompOption::comp_skymap
                | CompOption::comp_doorstuck
                | CompOption::comp_staylift
                | CompOption::comp_stairs
                | CompOption::comp_infcheat
                | CompOption::comp_zerotags
                | CompOption::comp_respawn
                | CompOption::comp_voodooscroller => Some(OptionValue::Bool(false)),
                CompOption::comp_texwidthclamp => Some(OptionValue::TexWidthClamp(TexWidthClamp::SolidWallsOnly)),
                CompOption::comp_clipmasked => Some(OptionValue::ClipMasked(ClipMasked::All)),
                CompOption::comp_thingfloorlight
                | CompOption::comp_musinfo
                | CompOption::monsters_remember
                | CompOption::monster_infighting
                | CompOption::monster_avoid_hazards
                | CompOption::monster_friction
                | CompOption::dog_jumping
                | CompOption::comp_pursuit
                | CompOption::comp_zombie
                | CompOption::comp_ledgeblock
                | CompOption::comp_friendlyspawn
                | CompOption::comp_reservedlineflag => Some(OptionValue::Bool(true)),
                CompOption::player_helpers => Some(OptionValue::Int(0)),
                CompOption::friend_distance => Some(OptionValue::Int(128)),
                _ => None,
            },
            None => None,
        }
    }

    /// Every option has a default under exactly the tiers for which it is legal,
    /// none without a tier, and every default fits the option's shape.
    pub proof fn lemma_default_value(self, exe: Option<Executable>)
        ensures
            exe is None ==> self.default_spec(exe) is None,
            exe matches Some(e) ==> (self.default_spec(exe) is Some <==> self.legal_for(e)),
            self.default_spec(exe) matches Some(v) ==> v.fits(self.shape()),
    {
    }

    /// The default of a legal option under `exe`: the value most options keep
    /// across tiers, with the few that change between tiers worked out here.
    fn default_at(self, exe: Executable) -> (r: OptionValue)
        requires
            self.legal_for(exe),
        ensures
            Some(r) == self.default_spec(Some(exe)),
    {
        let level = exe.level();
        match self {
            CompOption::comp_texwidthclamp => OptionValue::TexWidthClamp(
                if level >= 3 { TexWidthClamp::SolidWallsOnly } else { TexWidthClamp::All },
            ),
            CompOption::comp_clipmasked => OptionValue::ClipMasked(
                if level <= 1 {
                    ClipMasked::Off
                } else if level == 2 {
                    ClipMasked::MultipatchOnly
                } else {
                    ClipMasked::All
                },
            ),
            CompOption::comp_thingfloorlight => OptionValue::Bool(level >= 3),
            CompOption::help_friends | CompOption::comp_stairs => OptionValue::Bool(level < 5),
            CompOption::comp_zombie => OptionValue::Bool(level >= 5),
            CompOption::comp_soul
            | CompOption::comp_finaldoomteleport
            | CompOption::weapon_recoil
            | CompOption::monster_backing
            | CompOption::monkeys
            | CompOption::comp_telefrag
            | CompOption::comp_dropoff
            | CompOption::comp_vile
            | CompOption::comp_pain
            | CompOption::comp_skull
            | CompOption::comp_blazing
            | CompOption::comp_doorlight
            | CompOption::comp_model
            | CompOption::comp_god
            | CompOption::comp_falloff
            | CompOption::comp_floors
            | CompOption::comp_skymap
            | CompOption::comp_doorstuck
            | CompOption::comp_staylift
            | CompOption::comp_infcheat
            | CompOption::comp_zerotags
            | CompOption::comp_respawn
            | CompOption::comp_voodooscroller
            | CompOption::comp_666
            | CompOption::comp_maxhealth => OptionValue::Bool(false),
            CompOption::comp_musinfo
            | CompOption::comp_moveblock
            | CompOption::monsters_remember
            | CompOption::monster_infighting
            | CompOption::monster_avoid_hazards
            | CompOption::monster_friction
            | CompOption::dog_jumping
            | CompOption::comp_pursuit
            | CompOption::comp_ledgeblock
            | CompOption::comp_friendlyspawn
            | CompOption::comp_reservedlineflag
            | CompOption::comp_maskedanim
            | CompOption::comp_ouchface
            | CompOption::comp_sound => OptionValue::Bool(true),
            CompOption::player_helpers => OptionValue::Int(0),
            CompOption::friend_distance => OptionValue::Int(128),
        }
    }

    /// The default of the option under `exe`, or `None` where there is none.
    pub fn default_value(self, exe: Option<Executable>) -> (r: Option<OptionValue>)
        ensures
            r == self.default_spec(exe),
    {
        match exe {
            Some(e) => {
                if self.is_legal_for(e) {
                    Some(self.default_at(e))
                } else {
                    None
                }
            },
            None => None,
        }
    }
}

} // verus!
