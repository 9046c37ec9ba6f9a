use vstd::prelude::*;

use crate::error::CodecError;
use crate::text::slice_is;

verus! {

/// Runtime compatibility tier that a document targets, oldest first.
///
/// Tiers are totally ordered by declaration order; a tier supports the
/// features of every tier at or below it.
#[derive(Clone, Copy, Debug, PartialEq, Eq, Structural, PartialOrd, Ord, Hash)]
pub enum Executable {
    Doom1_9,
    LimitRemoving,
    Boom2_02,
    CompLevel9,
    MBF,
    MBF21,
    ID24,
}

/// Game mode a document declares.
#[derive(Clone, Copy, Debug, PartialEq, Eq, Structural, Hash)]
pub enum Mode {
    Registered,
    Retail,
    Commercial,
}

impl Executable {
    /// Position of the tier in the total order.
    pub open spec fn rank(self) -> nat {
        match self {
            Executable::Doom1_9 => 0,
            Executable::LimitRemoving => 1,
            Executable::Boom2_02 => 2,
            Executable::CompLevel9 => 3,
            Executable::MBF => 4,
            Executable::MBF21 => 5,
            Executable::ID24 => 6,
        }
    }

    /// The wire token of the tier.
    pub open spec fn token_spec(self) -> Seq<char> {
        match self {
            Executable::Doom1_9 => "doom1.9"@,
            Executable::LimitRemoving => "limitremoving"@,
            Executable::Boom2_02 => "boom2.02"@,
            Executable::CompLevel9 => "complevel9"@,
            Executable::MBF => "mbf"@,
            Executable::MBF21 => "mbf21"@,
            Executable::ID24 => "id24"@,
        }
    }

    /// The tier whose token is `t`, if any.
    pub open spec fn parse_spec(t: Seq<char>) -> Option<Executable> {
        if exists|e: Executable| e.token_spec() == t {
            Some(choose|e: Executable| e.token_spec() == t)
        } else {
            None
        }
    }

    /// All tiers, oldest first.
    pub open spec fn all_spec() -> Seq<Executable> {
        seq![
            Executable::Doom1_9,
            Executable::LimitRemoving,
            Executable::Boom2_02,
            Executable::CompLevel9,
            Executable::MBF,
            Executable::MBF21,
            Executable::ID24,
        ]
    }

    /// Position of the tier in the total order, as a number.
    pub fn level(self) -> (r: u8)
        ensures
            r == self.rank(),
    {
        match self {
            Executable::Doom1_9 => 0,
            Executable::LimitRemoving => 1,
            Executable::Boom2_02 => 2,
            Executable::CompLevel9 => 3,
            Executable::MBF => 4,
            Executable::MBF21 => 5,
            Executable::ID24 => 6,
        }
    }

    /// Whether this tier is at least as new as `other`.
    pub fn supports(self, other: Executable) -> (r: bool)
        ensures
            r == (self.rank() >= other.rank()),
    {
        self.level() >= other.level()
    }

    /// All tiers, oldest first.
    pub fn all() -> (r: Vec<Executable>)
        ensures
            r@ == Self::all_spec(),
    {
        let r = vec![
            Executable::Doom1_9,
            Executable::LimitRemoving,
            Executable::Boom2_02,
            Executable::CompLevel9,
            Executable::MBF,
            Executable::MBF21,
            Executable::ID24,
        ];
        assert(r@ =~= Self::all_spec());
        r
    }

    /// The wire token of the tier.
    pub fn token(self) -> (r: &'static str)
        ensures
            r@ == self.token_spec(),
    {
        match self {
            Executable::Doom1_9 => "doom1.9",
            Executable::LimitRemoving => "limitremoving",
            Executable::Boom2_02 => "boom2.02",
            Executable::CompLevel9 => "complevel9",
            Executable::MBF => "mbf",
            Executable::MBF21 => "mbf21",
            Executable::ID24 => "id24",
        }
    }

    /// Name of the tier for display.
    pub open spec fn label_spec(self) -> Seq<char> {
        match self {
            Executable::Doom1_9 => "Vanilla"@,
            Executable::LimitRemoving => "Limit Removing"@,
            Executable::Boom2_02 => "Boom 2.02"@,
            Executable::CompLevel9 => "Boom (CL9)"@,
            Executable::MBF => "MBF"@,
            Executable::MBF21 => "MBF21"@,
            Executable::ID24 => "ID24"@,
        }
    }

    /// Name of the tier for display.
    pub fn label(self) -> (r: &'static str)
        ensures
            r@ == self.label_spec(),
    {
        match self {
            Executable::Doom1_9 => "Vanilla",
            Executable::LimitRemoving => "Limit Removing",
            Executable::Boom2_02 => "Boom 2.02",
            Executable::CompLevel9 => "Boom (CL9)",
            Executable::MBF => "MBF",
            Executable::MBF21 => "MBF21",
            Executable::ID24 => "ID24",
        }
    }

    /// The tier with a token of length `n`; every token has its own length.
    spec fn from_token_len(n: nat) -> Executable {
        if n == 7 {
            Executable::Doom1_9
        } else if n == 13 {
            Executable::LimitRemoving
        } else if n == 8 {
            Executable::Boom2_02
        } else if n == 10 {
            Executable::CompLevel9
        } else if n == 3 {
            Executable::MBF
        } else if n == 5 {
            Executable::MBF21
        } else {
            Executable::ID24
        }
    }

    proof fn lemma_token_len(self)
        ensures
            Self::from_token_len(self.token_spec().len()) == self,
    {
        broadcast use vstd::string::group_string_axioms;
        reveal_strlit("doom1.9");
        reveal_strlit("limitremoving");
        reveal_strlit("boom2.02");
        reveal_strlit("complevel9");
        reveal_strlit("mbf");
        reveal_strlit("mbf21");
        reveal_strlit("id24");
    }

    /// No two tiers share a token.
    pub proof fn lemma_token_injective(a: Executable, b: Executable)
        ensures
            a.token_spec() == b.token_spec() ==> a == b,
    {
        a.lemma_token_len();
        b.lemma_token_len();
    }

    /// Reading a tier's own token gives the tier back.
    pub proof fn lemma_token_round_trip(self)
        ensures
            Self::parse_spec(self.token_spec()) == Some(self),
    {
        let e = choose|e: Executable| e.token_spec() == self.token_spec();
        Self::lemma_token_injective(e, self);
    }

    /// The tier named by a wire token; tokens are case-sensitive.
    pub fn from_token(s: &str) -> (r: Result<Executable, CodecError>)
        ensures
            r matches Ok(e) ==> Self::parse_spec(s@) == Some(e),
            r matches Err(e) ==> Self::parse_spec(s@) is None && e == CodecError::UnknownTier,
    {
        let t = crate::text::chars_of(s);
        let n = t.len();
        let all = Self::all();
        let mut i: usize = 0;
        while i < all.len()
            invariant
                all@ == Self::all_spec(),
                t@ == s@,
                n == t@.len(),
                i <= all@.len(),
                forall|j: int| 0 <= j < i ==> all@[j].token_spec() != s@,
            decreases all@.len() - i,
        {
            let e = all[i];
            if slice_is(&t, 0, n, e.token()) {
                assert(t@.subrange(0, n as int) =~= t@);
                proof {
                    let c = choose|c: Executable| c.token_spec() == s@;
                    Self::lemma_token_injective(c, e);
                }
                return Ok(e);
            }
            assert(t@.subrange(0, n as int) =~= t@);
            i = i + 1;
        }
        assert forall|e: Executable| e.token_spec() != s@ by {
            assert(Self::all_spec()[e.rank() as int] == e);
        }
        Err(CodecError::UnknownTier)
    }
}

impl Mode {
    /// The wire token of the mode.
    pub open spec fn token_spec(self) -> Seq<char> {
        match self {
            Mode::Registered => "registered"@,
            Mode::Retail => "retail"@,
            Mode::Commercial => "commercial"@,
        }
    }

    /// The mode whose token is `t`, if any.
    pub open spec fn parse_spec(t: Seq<char>) -> Option<Mode> {
        if exists|m: Mode| m.token_spec() == t {
            Some(choose|m: Mode| m.token_spec() == t)
        } else {
            None
        }
    }

    /// The wire token of the mode.
    pub fn token(self) -> (r: &'static str)
        ensures
            r@ == self.token_spec(),
    {
        match self {
            Mode::Registered => "registered",
            Mode::Retail => "retail",
            Mode::Commercial => "commercial",
        }
    }

    /// Name of the mode for display.
    pub open spec fn label_spec(self) -> Seq<char> {
        match self {
            Mode::Registered => "Registered"@,
            Mode::Retail => "Retail"@,
            Mode::Commercial => "Commercial"@,
        }
    }

    /// Name of the mode for display.
    pub fn label(self) -> (r: &'static str)
        ensures
            r@ == self.label_spec(),
    {
        match self {
            Mode::Registered => "Registered",
            Mode::Retail => "Retail",
            Mode::Commercial => "Commercial",
        }
    }

    spec fn from_token_key(n: nat, first: char) -> Mode {
        if n == 6 {
            Mode::Retail
        } else if first == 'r' {
            Mode::Registered
        } else {
            Mode::Commercial
        }
    }

    proof fn lemma_token_key(self)
        ensures
            Self::from_token_key(self.token_spec().len(), self.token_spec()[0]) == self,
    {
        broadcast use vstd::string::group_string_axioms;
        reveal_strlit("registered");
        reveal_strlit("retail");
        reveal_strlit("commercial");
    }

    /// No two modes share a token.
    pub proof fn lemma_token_injective(a: Mode, b: Mode)
        ensures
            a.token_spec() == b.token_spec() ==> a == b,
    {
        a.lemma_token_key();
        b.lemma_token_key();
    }

    /// The mode named by a wire token; tokens are case-sensitive.
    pub fn from_token(s: &str) -> (r: Result<Mode, CodecError>)
        ensures
            r matches Ok(m) ==> Self::parse_spec(s@) == Some(m),
            r matches Err(e) ==> Self::parse_spec(s@) is None && e == CodecError::UnknownMode,
    {
        let t = crate::text::chars_of(s);
        let n = t.len();
        assert(t@.subrange(0, n as int) =~= t@);
        let all = [Mode::Registered, Mode::Retail, Mode::Commercial];
        let mut i: usize = 0;
        while i < 3
            invariant
                all@ == seq![Mode::Registered, Mode::Retail, Mode::Commercial],
                t@ == s@,
                n == t@.len(),
                t@.subrange(0, n as int) == t@,
                i <= 3,
                forall|j: int| 0 <= j < i ==> all@[j].token_spec() != s@,
            decreases 3 - i,
        {
            let m = all[i];
            if slice_is(&t, 0, n, m.token()) {
                proof {
                    let c = choose|c: Mode| c.token_spec() == s@;
                    Self::lemma_token_injective(c, m);
                }
                return Ok(m);
            }
            i = i + 1;
        }
        assert forall|m: Mode| m.token_spec() != s@ by {
            assert(all@[0].token_spec() != s@);
            assert(all@[1].token_spec() != s@);
            assert(all@[2].token_spec() != s@);
        }
        Err(CodecError::UnknownMode)
    }
}

} // verus!
