use vstd::prelude::*;

use crate::catalog::{CompOption, OptionValue, OPTION_COUNT};
use crate::error::CodecError;
use crate::tier::Executable;

verus! {

/// The entries of `m` whose options sit among the first `n` of the catalog,
/// in catalog order.
pub open spec fn entries_upto(m: Map<CompOption, OptionValue>, n: nat) -> Seq<
    (CompOption, OptionValue),
>
    decreases n,
{
    if n == 0 {
        seq![]
    } else {
        let o = CompOption::from_index((n - 1) as nat);
        let rest = entries_upto(m, (n - 1) as nat);
        if m.contains_key(o) {
            rest.push((o, m[o]))
        } else {
            rest
        }
    }
}

/// The entries of `m` in ascending option order.
pub open spec fn ordered_entries(m: Map<CompOption, OptionValue>) -> Seq<(CompOption, OptionValue)> {
    entries_upto(m, OPTION_COUNT as nat)
}

/// Whether option `o` may still be added to a set with entries `m` for the
/// tier `exe`: it is absent, and legal for the tier when one is known.
pub open spec fn addable_spec(m: Map<CompOption, OptionValue>, exe: Option<Executable>, o: CompOption) -> bool {
    &&& !m.contains_key(o)
    &&& exe matches Some(e) ==> o.legal_for(e)
}

/// Whether every value of `m` has its option's shape and lies within its bound.
pub open spec fn values_fit(m: Map<CompOption, OptionValue>) -> bool {
    forall|k: CompOption| m.contains_key(k) ==> (#[trigger] m[k]).fits(k.shape())
}

/// The options that may appear in a document for `exe`.
pub open spec fn legal_options(exe: Executable) -> Set<CompOption> {
    Set::new(|k: CompOption| k.legal_for(exe))
}

/// The entries of `m` among the first `n` options are exactly its entries
/// there, each once, in ascending order.
pub proof fn lemma_entries_upto(m: Map<CompOption, OptionValue>, n: nat)
    requires
        n <= OPTION_COUNT,
    ensures
        forall|i: int|
            0 <= i < entries_upto(m, n).len() ==> {
                let e = #[trigger] entries_upto(m, n)[i];
                &&& m.contains_key(e.0)
                &&& m[e.0] == e.1
                &&& e.0.index() < n
            },
        forall|i: int, j: int|
            0 <= i < j < entries_upto(m, n).len() ==> (#[trigger] entries_upto(m, n)[i]).0.index()
                < (#[trigger] entries_upto(m, n)[j]).0.index(),
        forall|k: CompOption|
            m.contains_key(k) && k.index() < n ==> exists|i: int|
                0 <= i < entries_upto(m, n).len() && (#[trigger] entries_upto(m, n)[i]).0 == k,
    decreases n,
{
    if n > 0 {
        let p = (n - 1) as nat;
        lemma_entries_upto(m, p);
        CompOption::lemma_from_index(p);
        let rest = entries_upto(m, p);
        let o = CompOption::from_index(p);
        if m.contains_key(o) {
            let all = rest.push((o, m[o]));
            assert forall|k: CompOption| m.contains_key(k) && k.index() < n implies exists|i: int|
                0 <= i < all.len() && (#[trigger] all[i]).0 == k by {
                if k.index() == p {
                    k.lemma_index();
                    assert(all[rest.len() as int].0 == k);
                } else {
                    let i = choose|i: int| 0 <= i < rest.len() && (#[trigger] rest[i]).0 == k;
                    assert(all[i] == rest[i]);
                }
            }
        } else {
            assert forall|k: CompOption| m.contains_key(k) && k.index() < n implies exists|i: int|
                0 <= i < rest.len() && (#[trigger] rest[i]).0 == k by {
                if k.index() == p {
                    k.lemma_index();
                }
            }
        }
    }
}

/// Moving a set to a tier newer than MBF drops an option retired at MBF and
/// keeps every option still legal there, with its value.
pub proof fn lemma_prune_retired(o: Options, x: CompOption, exe: Executable)
    requires
        o@.contains_key(x),
        x.max_tier() == Executable::MBF,
        exe.rank() > Executable::MBF.rank(),
    ensures
        !o@.restrict(legal_options(exe)).contains_key(x),
        forall|k: CompOption|
            #![trigger o@.restrict(legal_options(exe)).contains_key(k)]
            k.legal_for(exe) && o@.contains_key(k) ==> o@.restrict(legal_options(exe)).contains_key(k)
                && o@.restrict(legal_options(exe))[k] == o@[k],
{
}

/// Adding an option with its default keeps every value fitting its option.
pub proof fn lemma_add_keeps_fit(
    m: Map<CompOption, OptionValue>,
    option: CompOption,
    exe: Option<Executable>,
)
    requires
        values_fit(m),
    ensures
        values_fit(
            match option.default_spec(exe) {
                Some(v) => m.insert(option, v),
                None => m,
            },
        ),
{
    option.lemma_default_value(exe);
}

/// Setting an option to a value that fits it keeps every value fitting its option.
pub proof fn lemma_set_keeps_fit(m: Map<CompOption, OptionValue>, option: CompOption, value: OptionValue)
    requires
        values_fit(m),
        value.fits(option.shape()),
    ensures
        values_fit(m.insert(option, value)),
{
}

/// The set of compatibility options configured for one document, each with
/// its value.
#[derive(Clone, Copy, Debug)]
pub struct Options {
    slots: [Option<OptionValue>; OPTION_COUNT],
}

impl View for Options {
    type V = Map<CompOption, OptionValue>;

    closed spec fn view(&self) -> Map<CompOption, OptionValue> {
        Map::new(
            |k: CompOption| self.slots@[k.index() as int] is Some,
            |k: CompOption| self.slots@[k.index() as int]->Some_0,
        )
    }
}

impl Options {
    /// An empty set.
    pub fn new() -> (r: Options)
        ensures
            r@ == Map::<CompOption, OptionValue>::empty(),
    {
        let r = Options { slots: [None; OPTION_COUNT] };
        assert(r@ =~= Map::<CompOption, OptionValue>::empty()) by {
            assert forall|k: CompOption| !(#[trigger] r@.contains_key(k)) by {
                k.lemma_index();
            }
        }
        r
    }

    /// Adds the option with its default for `exe`; without such a default the
    /// set is left as it is.
    pub fn add_option(&mut self, option: CompOption, exe: Option<Executable>)
        ensures
            final(self)@ == (match option.default_spec(exe) {
                Some(v) => old(self)@.insert(option, v),
                None => old(self)@,
            }),
    {
        if let Some(value) = option.default_value(exe) {
            self.set_option(option, value);
        }
    }

    /// Removes the option, if present.
    pub fn remove_option(&mut self, option: CompOption)
        ensures
            final(self)@ == old(self)@.remove(option),
    {
        let i = option.ordinal();
        self.slots[i] = None;
        proof {
            assert forall|k: CompOption| k.index() == option.index() implies k == option by {
                k.lemma_index();
                option.lemma_index();
            }
        }
        assert(self@ =~= old(self)@.remove(option));
    }

    /// Whether the option is present.
    pub fn has_option(&self, option: CompOption) -> (r: bool)
        ensures
            r == self@.contains_key(option),
    {
        self.slots[option.ordinal()].is_some()
    }

    /// The option's value, if present.
    pub fn get(&self, option: CompOption) -> (r: Option<OptionValue>)
        ensures
            r == (if self@.contains_key(option) {
                Some(self@[option])
            } else {
                None
            }),
    {
        self.slots[option.ordinal()]
    }

    /// Sets the option to `value`, whatever shape the catalog gives it.
    pub fn set_option(&mut self, option: CompOption, value: OptionValue)
        ensures
            final(self)@ == old(self)@.insert(option, value),
    {
        let i = option.ordinal();
        self.slots[i] = Some(value);
        proof {
            assert forall|k: CompOption| k.index() == option.index() implies k == option by {
                k.lemma_index();
                option.lemma_index();
            }
        }
        assert(self@ =~= old(self)@.insert(option, value));
    }

    /// Sets the option to `value` when the value has the option's shape and
    /// lies within its bound; otherwise leaves the set as it is and fails.
    pub fn set_option_checked(&mut self, option: CompOption, value: OptionValue) -> (r: Result<
        (),
        CodecError,
    >)
        ensures
            r is Ok <==> value.fits(option.shape()),
            r is Ok ==> final(self)@ == old(self)@.insert(option, value),
            r matches Err(e) ==> final(self)@ == old(self)@ && e == CodecError::OptionShapeMismatch,
    {
        if value.fits_shape(option.value_shape()) {
            self.set_option(option, value);
            Ok(())
        } else {
            Err(CodecError::OptionShapeMismatch)
        }
    }

    /// Drops every option that is not legal for `exe`; the others keep their
    /// values, and none is added.
    pub fn set_executable(&mut self, exe: Executable)
        ensures
            final(self)@ == old(self)@.restrict(legal_options(exe)),
    {
        let ghost before = self.slots@;
        let mut i: usize = 0;
        while i < OPTION_COUNT
            invariant
                i <= OPTION_COUNT,
                forall|j: int|
                    0 <= j < i ==> self.slots@[j] == (if CompOption::from_index(j as nat).legal_for(
                        exe,
                    ) {
                        before[j]
                    } else {
                        None
                    }),
                forall|j: int| i <= j < OPTION_COUNT ==> self.slots@[j] == before[j],
            decreases OPTION_COUNT - i,
        {
            let o = CompOption::from_ordinal(i);
            if !o.is_legal_for(exe) {
                self.slots[i] = None;
            }
            i = i + 1;
        }
        assert forall|k: CompOption| true implies self.slots@[k.index() as int] == (if k.legal_for(
            exe,
        ) {
            before[k.index() as int]
        } else {
            None
        }) by {
            k.lemma_index();
        }
        assert(self@ =~= old(self)@.restrict(legal_options(exe)));
    }

    /// The entries in ascending option order.
    pub fn entries(&self) -> (r: Vec<(CompOption, OptionValue)>)
        ensures
            r@ == ordered_entries(self@),
    {
        let mut r: Vec<(CompOption, OptionValue)> = Vec::new();
        let mut i: usize = 0;
        while i < OPTION_COUNT
            invariant
                i <= OPTION_COUNT,
                r@ == entries_upto(self@, i as nat),
            decreases OPTION_COUNT - i,
        {
            let o = CompOption::from_ordinal(i);
            proof {
                CompOption::lemma_from_index(i as nat);
            }
            if let Some(v) = self.slots[i] {
                r.push((o, v));
            }
            i = i + 1;
        }
        r
    }

    /// The options that may still be added for `exe`, in catalog order.
    pub fn addable(&self, exe: Option<Executable>) -> (r: Vec<CompOption>)
        ensures
            r@ == CompOption::all_spec().filter(|o: CompOption| addable_spec(self@, exe, o)),
    {
        let ghost pred = |o: CompOption| addable_spec(self@, exe, o);
        let mut r: Vec<CompOption> = Vec::new();
        let mut i: usize = 0;
        assert(CompOption::all_spec().take(0) =~= Seq::<CompOption>::empty());
        proof {
            reveal(Seq::filter);
        }
        while i < OPTION_COUNT
            invariant
                i <= OPTION_COUNT,
                pred == (|o: CompOption| addable_spec(self@, exe, o)),
                r@ == CompOption::all_spec().take(i as int).filter(pred),
            decreases OPTION_COUNT - i,
        {
            let o = CompOption::from_ordinal(i);
            proof {
                CompOption::lemma_from_index(i as nat);
                reveal(Seq::filter);
                let next = CompOption::all_spec().take(i + 1);
                assert(next.drop_last() =~= CompOption::all_spec().take(i as int));
                assert(next.last() == o);
            }
            let legal = match exe {
                Some(e) => o.is_legal_for(e),
                None => true,
            };
            if legal && !self.has_option(o) {
                r.push(o);
            }
            i = i + 1;
        }
        assert(CompOption::all_spec().take(OPTION_COUNT as int) =~= CompOption::all_spec());
        r
    }

    /// The number of options present.
    pub fn len(&self) -> (r: usize)
        ensures
            r == ordered_entries(self@).len(),
    {
        self.entries().len()
    }

    /// Whether no option is present.
    pub fn is_empty(&self) -> (r: bool)
        ensures
            r == (self@ == Map::<CompOption, OptionValue>::empty()),
    {
        let mut i: usize = 0;
        while i < OPTION_COUNT
            invariant
                i <= OPTION_COUNT,
                forall|j: int| 0 <= j < i ==> self.slots@[j] is None,
            decreases OPTION_COUNT - i,
        {
            if self.slots[i].is_some() {
                proof {
                    let k = CompOption::from_index(i as nat);
                    CompOption::lemma_from_index(i as nat);
                    assert(self@.contains_key(k));
                }
                return false;
            }
            i = i + 1;
        }
        assert(self@ =~= Map::<CompOption, OptionValue>::empty()) by {
            assert forall|k: CompOption| !(#[trigger] self@.contains_key(k)) by {
                k.lemma_index();
            }
        }
        true
    }
}

impl Default for Options {
    fn default() -> (r: Options)
        ensures
            r@ == Map::<CompOption, OptionValue>::empty(),
    {
        Options::new()
    }
}

impl PartialEq for Options {
    fn eq(&self, other: &Options) -> (r: bool)
        ensures
            r == (self@ == other@),
    {
        let mut i: usize = 0;
        while i < OPTION_COUNT
            invariant
                i <= OPTION_COUNT,
                forall|j: int| 0 <= j < i ==> self.slots@[j] == other.slots@[j],
            decreases OPTION_COUNT - i,
        {
            let same = match (self.slots[i], other.slots[i]) {
                (Some(a), Some(b)) => a == b,
                (None, None) => true,
                _ => false,
            };
            if !same {
                proof {
                    let k = CompOption::from_index(i as nat);
                    CompOption::lemma_from_index(i as nat);
                    assert(self@.contains_key(k) != other@.contains_key(k) || self@[k] != other@[k]);
                }
                return false;
            }
            i = i + 1;
        }
        assert(self@ =~= other@) by {
            assert forall|k: CompOption| true implies self.slots@[k.index() as int]
                == other.slots@[k.index() as int] by {
                k.lemma_index();
            }
        }
        true
    }
}

impl vstd::std_specs::cmp::PartialEqSpecImpl for Options {
    open spec fn obeys_eq_spec() -> bool {
        true
    }

    open spec fn eq_spec(&self, other: &Options) -> bool {
        self@ == other@
    }
}

} // verus!
