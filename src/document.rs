use vstd::prelude::*;

use crate::error::CodecError;
use crate::text::{
    chars_of, decimal, is_digit, lemma_decimal, lemma_split_acc_run, parse_u8, parse_u8_spec,
    push_decimal, split_acc, split_on,
};

verus! {

/// Version of a document format: `major.minor.revision`.
#[derive(Clone, Copy, Debug, PartialEq, Eq, Structural, Hash)]
pub struct Version {
    pub major: u8,
    pub minor: u8,
    pub revision: u8,
}

impl Version {
    /// The version a text names: exactly three `.`-separated numbers, each
    /// read as `str::parse::<u8>` reads it.
    pub open spec fn parse_spec(s: Seq<char>) -> Option<Version> {
        let p = split_on(s, '.');
        if p.len() != 3 {
            None
        } else {
            match (parse_u8_spec(p[0]), parse_u8_spec(p[1]), parse_u8_spec(p[2])) {
                (Some(major), Some(minor), Some(revision)) => Some(
                    Version { major, minor, revision },
                ),
                _ => None,
            }
        }
    }

    /// The text of the version, its three numbers in decimal joined by `.`.
    pub open spec fn text_spec(self) -> Seq<char> {
        decimal(self.major as nat) + seq!['.'] + decimal(self.minor as nat) + seq!['.'] + decimal(
            self.revision as nat,
        )
    }

    /// Reads a version from its text.
    pub fn parse(s: &str) -> (r: Result<Version, CodecError>)
        ensures
            r matches Ok(v) ==> Self::parse_spec(s@) == Some(v),
            r matches Err(e) ==> Self::parse_spec(s@) is None && e == CodecError::InvalidVersion,
    {
        let t = chars_of(s);
        let n = t.len();
        let ghost mut done: Seq<Seq<char>> = seq![];
        let mut count: usize = 0;
        let mut a0: usize = 0;
        let mut a1: usize = 0;
        let mut b0: usize = 0;
        let mut b1: usize = 0;
        let mut ps: usize = 0;
        let mut i: usize = 0;
        assert(t@.subrange(0, n as int) =~= t@);
        assert(t@.subrange(0, 0) =~= Seq::<char>::empty());
        assert(done + split_acc(t@, '.', seq![]) =~= split_acc(t@, '.', seq![]));
        while i < n
            invariant
                n == t@.len(),
                t@ == s@,
                ps <= i <= n,
                split_on(s@, '.') == done + split_acc(
                    t@.subrange(i as int, n as int),
                    '.',
                    t@.subrange(ps as int, i as int),
                ),
                count == done.len(),
                count <= i,
                count >= 1 ==> a0 <= a1 <= n && done[0] == t@.subrange(a0 as int, a1 as int),
                count >= 2 ==> b0 <= b1 <= n && done[1] == t@.subrange(b0 as int, b1 as int),
            decreases n - i,
        {
            let c = t[i];
            let ghost rest = t@.subrange(i as int, n as int);
            let ghost cur = t@.subrange(ps as int, i as int);
            assert(rest.drop_first() =~= t@.subrange(i + 1, n as int));
            assert(rest[0] == c);
            if c == '.' {
                if count == 0 {
                    a0 = ps;
                    a1 = i;
                } else if count == 1 {
                    b0 = ps;
                    b1 = i;
                }
                assert(done + split_acc(rest, '.', cur) =~= done.push(cur) + split_acc(
                    rest.drop_first(),
                    '.',
                    seq![],
                ));
                proof {
                    done = done.push(cur);
                }
                count = count + 1;
                ps = i + 1;
                assert(t@.subrange(ps as int, i + 1) =~= Seq::<char>::empty());
            } else {
                assert(cur.push(c) =~= t@.subrange(ps as int, i + 1));
            }
            i = i + 1;
        }
        let ghost cur = t@.subrange(ps as int, n as int);
        assert(split_acc(t@.subrange(n as int, n as int), '.', cur) =~= seq![cur]);
        proof {
            done = done.push(cur);
        }
        assert(split_on(s@, '.') =~= done);
        if count != 2 {
            return Err(CodecError::InvalidVersion);
        }
        let major = parse_u8(&t, a0, a1);
        let minor = parse_u8(&t, b0, b1);
        let revision = parse_u8(&t, ps, n);
        match (major, minor, revision) {
            (Some(major), Some(minor), Some(revision)) => Ok(Version { major, minor, revision }),
            _ => Err(CodecError::InvalidVersion),
        }
    }

    /// The text of the version, its three numbers in decimal joined by `.`.
    pub fn text(&self) -> (r: String)
        ensures
            r@ == self.text_spec(),
    {
        broadcast use vstd::string::group_string_axioms;
        proof {
            reveal_strlit(".");
        }
        let mut out = String::new();
        push_decimal(&mut out, self.major as u16);
        out.append(".");
        push_decimal(&mut out, self.minor as u16);
        out.append(".");
        push_decimal(&mut out, self.revision as u16);
        assert(out@ =~= self.text_spec());
        out
    }

    /// Reading the text of a version gives the version back.
    pub proof fn lemma_text_round_trip(self)
        ensures
            Self::parse_spec(self.text_spec()) == Some(self),
    {
        let a = decimal(self.major as nat);
        let b = decimal(self.minor as nat);
        let c = decimal(self.revision as nat);
        lemma_number_piece(self.major as nat);
        lemma_number_piece(self.minor as nat);
        lemma_number_piece(self.revision as nat);
        let e = Seq::<char>::empty();
        assert(self.text_spec() =~= a + (seq!['.'] + (b + (seq!['.'] + c))));
        lemma_split_acc_run(a, '.', seq!['.'] + (b + (seq!['.'] + c)), e);
        assert(e + a =~= a);
        assert((seq!['.'] + (b + (seq!['.'] + c))).drop_first() =~= b + (seq!['.'] + c));
        lemma_split_acc_run(b, '.', seq!['.'] + c, e);
        assert(e + b =~= b);
        assert((seq!['.'] + c).drop_first() =~= c);
        lemma_split_acc_run(c, '.', e, e);
        assert(e + c =~= c);
        assert(c + e =~= c);
        assert(split_on(self.text_spec(), '.') =~= seq![a, b, c]);
    }
}

/// A decimal numeral below 256 holds no `.` and reads back as its number.
proof fn lemma_number_piece(n: nat)
    requires
        n <= 255,
    ensures
        forall|i: int| 0 <= i < decimal(n).len() ==> #[trigger] decimal(n)[i] != '.',
        parse_u8_spec(decimal(n)) == Some(n as u8),
{
    lemma_decimal(n);
    assert(is_digit(decimal(n)[0]));
    assert forall|i: int| 0 <= i < decimal(n).len() implies #[trigger] decimal(n)[i] != '.' by {
        assert(is_digit(decimal(n)[i]));
    }
}

/// Position of the first name that repeats an earlier one, so that a list
/// meant to hold unique names can be rejected.
pub fn find_duplicate(names: &Vec<String>) -> (r: Option<usize>)
    ensures
        r matches Some(j) ==> {
            &&& j < names@.len()
            &&& exists|i: int| 0 <= i < j && names@[i]@ == names@[j as int]@
        },
        forall|k: int, i: int|
            0 <= i < k < (if let Some(j) = r { j as int } else { names@.len() as int })
                ==> names@[i]@ != names@[k]@,
{
    let mut j: usize = 0;
    while j < names.len()
        invariant
            j <= names@.len(),
            forall|k: int, i: int| 0 <= i < k < j ==> names@[i]@ != names@[k]@,
        decreases names@.len() - j,
    {
        let mut i: usize = 0;
        while i < j
            invariant
                j < names@.len(),
                i <= j,
                forall|k: int, i2: int| 0 <= i2 < k < j ==> names@[i2]@ != names@[k]@,
                forall|i2: int| 0 <= i2 < i ==> names@[i2]@ != names@[j as int]@,
            decreases j - i,
        {
            if names[i] == names[j] {
                return Some(j);
            }
            i = i + 1;
        }
        j = j + 1;
    }
    None
}

/// The kinds of document the editor works on.
#[allow(non_camel_case_types)]
#[derive(Clone, Copy, Debug, PartialEq, Eq, Structural, Hash)]
pub enum LumpType {
    GAMECONF,
    DEMOLOOP,
    SBARDEF,
    SKYDEFS,
    Interlevel,
    Finale,
    TRAKINFO,
}

impl LumpType {
    /// Every kind of document, in menu order.
    pub fn all() -> (r: Vec<LumpType>)
        ensures
            r@ == seq![
                LumpType::GAMECONF,
                LumpType::DEMOLOOP,
                LumpType::SBARDEF,
                LumpType::SKYDEFS,
                LumpType::Interlevel,
                LumpType::Finale,
                LumpType::TRAKINFO,
            ],
    {
        let r = vec![
            LumpType::GAMECONF,
            LumpType::DEMOLOOP,
            LumpType::SBARDEF,
            LumpType::SKYDEFS,
            LumpType::Interlevel,
            LumpType::Finale,
            LumpType::TRAKINFO,
        ];
        assert(r@ =~= seq![
            LumpType::GAMECONF,
            LumpType::DEMOLOOP,
            LumpType::SBARDEF,
            LumpType::SKYDEFS,
            LumpType::Interlevel,
            LumpType::Finale,
            LumpType::TRAKINFO,
        ]);
        r
    }

    /// Name of the kind for display.
    pub open spec fn label_spec(self) -> Seq<char> {
        match self {
            LumpType::GAMECONF => "GAMECONF"@,
            LumpType::DEMOLOOP => "DEMOLOOP"@,
            LumpType::SBARDEF => "SBARDEF"@,
            LumpType::SKYDEFS => "SKYDEFS"@,
            LumpType::Interlevel => "Interlevel"@,
            LumpType::Finale => "Finale"@,
            LumpType::TRAKINFO => "TRAKINFO"@,
        }
    }

    /// Name of the kind for display.
    pub fn label(self) -> (r: &'static str)
        ensures
            r@ == self.label_spec(),
    {
        match self {
            LumpType::GAMECONF => "GAMECONF",
            LumpType::DEMOLOOP => "DEMOLOOP",
            LumpType::SBARDEF => "SBARDEF",
            LumpType::SKYDEFS => "SKYDEFS",
            LumpType::Interlevel => "Interlevel",
            LumpType::Finale => "Finale",
            LumpType::TRAKINFO => "TRAKINFO",
        }
    }
}

} // verus!
