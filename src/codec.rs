use vstd::prelude::*;

use crate::catalog::{ClipMasked, CompOption, OptionValue, TexWidthClamp, ValueShape, OPTION_COUNT};
use crate::error::CodecError;
use crate::options::{entries_upto, lemma_entries_upto, ordered_entries, values_fit, Options};
use crate::text::{
    chars_of, decimal, is_space, is_space_char, join_lines, lemma_lines_of_joined,
    lemma_parse_decimal, lemma_words_of_pair, lines_acc, lines_of, no_newline, no_space,
    parse_u16, parse_u16_spec, plain_line, push_decimal, strip_cr, words_acc, words_of,
};

verus! {

/// The wire token of a value: `1` or `0` for a flag, the decimal number for
/// an integer, the ordinal code for an enumerated state.
pub open spec fn value_token(v: OptionValue) -> Seq<char> {
    match v {
        OptionValue::Bool(b) => if b {
            seq!['1']
        } else {
            seq!['0']
        },
        OptionValue::Int(n) => decimal(n as nat),
        OptionValue::ClipMasked(c) => decimal(c.code_spec()),
        OptionValue::TexWidthClamp(t) => decimal(t.code_spec()),
    }
}

/// The wire line of one entry: its option's name, a space, its value's token.
pub open spec fn entry_line(e: (CompOption, OptionValue)) -> Seq<char> {
    e.0.name_spec() + seq![' '] + value_token(e.1)
}

/// The wire text of an option set: one line per entry, in ascending option
/// order, joined by `\n`; the empty set gives the empty text.
pub open spec fn encode_spec(m: Map<CompOption, OptionValue>) -> Seq<char> {
    join_lines(ordered_entries(m).map_values(|e: (CompOption, OptionValue)| entry_line(e)))
}

/// The value that option `o` takes from the number `n` read on the wire.
pub open spec fn value_for(o: CompOption, n: u16) -> Result<OptionValue, CodecError> {
    match o.shape() {
        ValueShape::Bool => Ok(OptionValue::Bool(n != 0)),
        ValueShape::Int(max) => Ok(OptionValue::Int(if n <= max { n } else { max })),
        ValueShape::ClipMasked => match ClipMasked::from_code_spec(n as nat) {
            Some(c) => Ok(OptionValue::ClipMasked(c)),
            None => Err(CodecError::InvalidEnumValue),
        },
        ValueShape::TexWidthClamp => match TexWidthClamp::from_code_spec(n as nat) {
            Some(c) => Ok(OptionValue::TexWidthClamp(c)),
            None => Err(CodecError::InvalidEnumValue),
        },
    }
}

/// The entry that one wire line sets.
pub open spec fn parse_line(line: Seq<char>) -> Result<(CompOption, OptionValue), CodecError> {
    let w = words_of(line);
    if w.len() != 2 {
        Err(CodecError::MalformedLine)
    } else {
        match CompOption::lookup_spec(w[0]) {
            None => Err(CodecError::UnknownOption),
            Some(o) => match parse_u16_spec(w[1]) {
                None => Err(CodecError::InvalidValue),
                Some(n) => match value_for(o, n) {
                    Ok(v) => Ok((o, v)),
                    Err(e) => Err(e),
                },
            },
        }
    }
}

/// Applies the lines in order to `acc`, a later line for an option replacing an
/// earlier one; the first line that fails decides the error.
pub open spec fn decode_from(acc: Map<CompOption, OptionValue>, ls: Seq<Seq<char>>) -> Result<
    Map<CompOption, OptionValue>,
    CodecError,
>
    decreases ls.len(),
{
    if ls.len() == 0 {
        Ok(acc)
    } else {
        match parse_line(ls[0]) {
            Err(e) => Err(e),
            Ok(e) => decode_from(acc.insert(e.0, e.1), ls.drop_first()),
        }
    }
}

/// The option set that a wire text describes.
pub open spec fn decode_spec(text: Seq<char>) -> Result<Map<CompOption, OptionValue>, CodecError> {
    decode_from(Map::empty(), lines_of(text))
}

/// Whether an executable result stands for the decoded model `d`.
pub open spec fn decoded_as(
    r: Result<Options, CodecError>,
    d: Result<Map<CompOption, OptionValue>, CodecError>,
) -> bool {
    match (r, d) {
        (Ok(o), Ok(m)) => o@ == m,
        (Err(a), Err(b)) => a == b,
        _ => false,
    }
}

proof fn lemma_join_push(ls: Seq<Seq<char>>, l: Seq<char>)
    requires
        ls.len() > 0,
    ensures
        join_lines(ls.push(l)) == join_lines(ls) + seq!['\n'] + l,
    decreases ls.len(),
{
    if ls.len() == 1 {
        assert(ls.push(l).drop_first() =~= seq![l]);
        assert(join_lines(seq![l]) == l);
        assert(join_lines(ls) == ls[0]);
        assert(ls.push(l)[0] == ls[0]);
    } else {
        lemma_join_push(ls.drop_first(), l);
        assert(ls.push(l).drop_first() =~= ls.drop_first().push(l));
        assert(join_lines(ls.push(l)) =~= join_lines(ls) + seq!['\n'] + l);
    }
}

fn push_value_token(out: &mut String, v: OptionValue)
    ensures
        final(out)@ == old(out)@ + value_token(v),
{
    broadcast use vstd::string::group_string_axioms;
    proof {
        reveal_strlit("1");
        reveal_strlit("0");
    }
    match v {
        OptionValue::Bool(b) => {
            if b {
                out.append("1");
            } else {
                out.append("0");
            }
        },
        OptionValue::Int(n) => push_decimal(out, n),
        OptionValue::ClipMasked(c) => push_decimal(out, c.code()),
        OptionValue::TexWidthClamp(t) => push_decimal(out, t.code()),
    }
}

/// The value that option `o` takes from the number `n` read on the wire.
pub fn value_of(o: CompOption, n: u16) -> (r: Result<OptionValue, CodecError>)
    ensures
        r == value_for(o, n),
{
    match o.value_shape() {
        ValueShape::Bool => Ok(OptionValue::Bool(n != 0)),
        ValueShape::Int(max) => Ok(OptionValue::Int(if n <= max { n } else { max })),
        ValueShape::ClipMasked => match ClipMasked::from_code(n) {
            Some(c) => Ok(OptionValue::ClipMasked(c)),
            None => Err(CodecError::InvalidEnumValue),
        },
        ValueShape::TexWidthClamp => match TexWidthClamp::from_code(n) {
            Some(c) => Ok(OptionValue::TexWidthClamp(c)),
            None => Err(CodecError::InvalidEnumValue),
        },
    }
}

/// The entry that the wire line `t[from..to]` sets.
fn decode_line(t: &Vec<char>, from: usize, to: usize) -> (r: Result<
    (CompOption, OptionValue),
    CodecError,
>)
    requires
        from <= to <= t@.len(),
    ensures
        r == parse_line(t@.subrange(from as int, to as int)),
{
    let ghost line = t@.subrange(from as int, to as int);
    let ghost mut done: Seq<Seq<char>> = seq![];
    let mut count: usize = 0;
    let mut in_word = false;
    let mut ws: usize = from;
    let mut a0: usize = from;
    let mut a1: usize = from;
    let mut b0: usize = from;
    let mut b1: usize = from;
    let mut i: usize = from;
    assert(t@.subrange(from as int, to as int) == line);
    while i < to
        invariant
            from <= ws <= i <= to <= t@.len(),
            line == t@.subrange(from as int, to as int),
            words_of(line) == done + words_acc(
                t@.subrange(i as int, to as int),
                if in_word {
                    t@.subrange(ws as int, i as int)
                } else {
                    seq![]
                },
            ),
            in_word ==> ws < i,
            count == done.len(),
            in_word ==> count <= ws - from,
            !in_word ==> count <= i - from,
            count >= 1 ==> a0 <= a1 <= to && done[0] == t@.subrange(a0 as int, a1 as int),
            count >= 2 ==> b0 <= b1 <= to && done[1] == t@.subrange(b0 as int, b1 as int),
        decreases to - i,
    {
        let c = t[i];
        let ghost s = t@.subrange(i as int, to as int);
        assert(s.drop_first() =~= t@.subrange(i + 1, to as int));
        assert(s[0] == c);
        if is_space_char(c) {
            if in_word {
                let ghost cur = t@.subrange(ws as int, i as int);
                assert(done + words_acc(s, cur) =~= done.push(cur) + words_acc(
                    s.drop_first(),
                    seq![],
                ));
                if count == 0 {
                    a0 = ws;
                    a1 = i;
                } else if count == 1 {
                    b0 = ws;
                    b1 = i;
                }
                proof {
                    done = done.push(cur);
                }
                count = count + 1;
                in_word = false;
            } else {
                assert(done + words_acc(s, seq![]) =~= done + words_acc(s.drop_first(), seq![]));
            }
        } else {
            if !in_word {
                in_word = true;
                ws = i;
                assert(seq![].push(c) =~= t@.subrange(ws as int, i + 1));
            } else {
                assert(t@.subrange(ws as int, i as int).push(c) =~= t@.subrange(
                    ws as int,
                    i + 1,
                ));
            }
        }
        i = i + 1;
    }
    if in_word {
        let ghost cur = t@.subrange(ws as int, to as int);
        assert(words_acc(t@.subrange(to as int, to as int), cur) =~= seq![cur]);
        if count == 0 {
            a0 = ws;
            a1 = to;
        } else if count == 1 {
            b0 = ws;
            b1 = to;
        }
        proof {
            done = done.push(cur);
        }
        count = count + 1;
    } else {
        assert(words_acc(t@.subrange(to as int, to as int), seq![]) =~= seq![]);
    }
    assert(words_of(line) =~= done);
    if count != 2 {
        return Err(CodecError::MalformedLine);
    }
    match CompOption::lookup(t, a0, a1) {
        None => Err(CodecError::UnknownOption),
        Some(o) => match parse_u16(t, b0, b1) {
            None => Err(CodecError::InvalidValue),
            Some(n) => match value_of(o, n) {
                Ok(v) => Ok((o, v)),
                Err(e) => Err(e),
            },
        },
    }
}

impl Options {
    /// The wire text of the set: one `name value` line per option, in
    /// ascending option order, joined by `\n`.
    pub fn encode(&self) -> (r: String)
        ensures
            r@ == encode_spec(self@),
    {
        broadcast use vstd::string::group_string_axioms;
        let ghost m = self@;
        let ghost f = |e: (CompOption, OptionValue)| entry_line(e);
        let mut out = String::new();
        let mut first = true;
        let mut i: usize = 0;
        while i < OPTION_COUNT
            invariant
                m == self@,
                f == (|e: (CompOption, OptionValue)| entry_line(e)),
                i <= OPTION_COUNT,
                out@ == join_lines(entries_upto(m, i as nat).map_values(f)),
                first == (entries_upto(m, i as nat).len() == 0),
            decreases OPTION_COUNT - i,
        {
            let o = CompOption::from_ordinal(i);
            proof {
                CompOption::lemma_from_index(i as nat);
            }
            let ghost before = entries_upto(m, i as nat);
            if let Some(v) = self.get(o) {
                proof {
                    reveal_strlit("\n");
                    reveal_strlit(" ");
                }
                let ghost old_out = out@;
                if !first {
                    out.append("\n");
                }
                out.append(o.name());
                out.append(" ");
                push_value_token(&mut out, v);
                proof {
                    let after = before.push((o, v));
                    assert(entries_upto(m, (i + 1) as nat) == after);
                    assert(after.map_values(f) =~= before.map_values(f).push(entry_line((o, v))));
                    if before.len() == 0 {
                        assert(before.map_values(f).push(entry_line((o, v))) =~= seq![entry_line((o, v))]);
                        assert(out@ =~= entry_line((o, v)));
                    } else {
                        lemma_join_push(before.map_values(f), entry_line((o, v)));
                        assert(out@ =~= old_out + seq!['\n'] + entry_line((o, v)));
                    }
                }
                first = false;
            }
            i = i + 1;
        }
        out
    }

    /// Reads a wire text: each line sets one option, a later line for the same
    /// option winning; the first bad line fails the whole text.
    pub fn decode(text: &str) -> (r: Result<Options, CodecError>)
        ensures
            decoded_as(r, decode_spec(text@)),
    {
        let t = chars_of(text);
        let n = t.len();
        let mut opts = Options::new();
        let mut ls: usize = 0;
        let mut i: usize = 0;
        assert(t@.subrange(0, n as int) =~= t@);
        assert(t@.subrange(0, 0) =~= Seq::<char>::empty());
        while i < n
            invariant
                n == t@.len(),
                t@ == text@,
                ls <= i <= n,
                decode_spec(text@) == decode_from(
                    opts@,
                    lines_acc(t@.subrange(i as int, n as int), t@.subrange(ls as int, i as int)),
                ),
            decreases n - i,
        {
            let c = t[i];
            let ghost s = t@.subrange(i as int, n as int);
            let ghost cur = t@.subrange(ls as int, i as int);
            assert(s.drop_first() =~= t@.subrange(i + 1, n as int));
            assert(s[0] == c);
            if c == '\n' {
                let end = if i > ls && t[i - 1] == '\r' {
                    i - 1
                } else {
                    i
                };
                assert(strip_cr(cur) =~= t@.subrange(ls as int, end as int));
                assert(lines_acc(s, cur) =~= seq![strip_cr(cur)] + lines_acc(s.drop_first(), seq![]));
                assert((seq![strip_cr(cur)] + lines_acc(s.drop_first(), seq![])).drop_first()
                    =~= lines_acc(s.drop_first(), seq![]));
                match decode_line(&t, ls, end) {
                    Ok((o, v)) => opts.set_option(o, v),
                    Err(e) => return Err(e),
                }
                ls = i + 1;
                assert(t@.subrange(ls as int, i + 1) =~= Seq::<char>::empty());
            } else {
                assert(cur.push(c) =~= t@.subrange(ls as int, i + 1));
            }
            i = i + 1;
        }
        let ghost cur = t@.subrange(ls as int, n as int);
        assert(t@.subrange(n as int, n as int) =~= Seq::<char>::empty());
        if ls < n {
            assert(lines_acc(t@.subrange(n as int, n as int), cur) =~= seq![cur]);
            assert(seq![cur].drop_first() =~= Seq::<Seq<char>>::empty());
            match decode_line(&t, ls, n) {
                Ok((o, v)) => opts.set_option(o, v),
                Err(e) => return Err(e),
            }
            assert(decode_from(opts@, Seq::<Seq<char>>::empty()) == Ok::<Map<CompOption, OptionValue>, CodecError>(opts@));
        } else {
            assert(cur.len() == 0);
            assert(lines_acc(t@.subrange(n as int, n as int), cur) =~= Seq::<Seq<char>>::empty());
        }
        Ok(opts)
    }
}

/// `acc` with the entries inserted in order, a later entry for an option
/// replacing an earlier one.
pub open spec fn insert_all(acc: Map<CompOption, OptionValue>, es: Seq<(CompOption, OptionValue)>) -> Map<
    CompOption,
    OptionValue,
>
    decreases es.len(),
{
    if es.len() == 0 {
        acc
    } else {
        insert_all(acc.insert(es[0].0, es[0].1), es.drop_first())
    }
}

/// The wire line of an entry whose value fits its option reads back as that
/// entry, and survives splitting into lines.
pub proof fn lemma_entry_line(o: CompOption, v: OptionValue)
    requires
        v.fits(o.shape()),
    ensures
        parse_line(entry_line((o, v))) == Ok::<(CompOption, OptionValue), CodecError>((o, v)),
        plain_line(entry_line((o, v))),
{
    let name = o.name_spec();
    let tok = value_token(v);
    o.lemma_name_chars();
    o.lemma_lookup_name();
    let k: nat = match v {
        OptionValue::Bool(b) => if b {
            1
        } else {
            0
        },
        OptionValue::Int(n) => n as nat,
        OptionValue::ClipMasked(c) => c.code_spec(),
        OptionValue::TexWidthClamp(t) => t.code_spec(),
    };
    assert(tok =~= decimal(k));
    lemma_parse_decimal(k);
    assert(no_space(name)) by {
        assert forall|i: int| 0 <= i < name.len() implies !is_space(#[trigger] name[i]) by {
            assert(CompOption::is_name_char(name[i]));
        }
    }
    lemma_words_of_pair(name, tok);
    let line = entry_line((o, v));
    assert(line == name + seq![' '] + tok);
    assert(value_for(o, k as u16) == Ok::<OptionValue, CodecError>(v));
    assert(no_newline(line)) by {
        assert forall|i: int| 0 <= i < line.len() implies #[trigger] line[i] != '\n' by {
            if i < name.len() {
                assert(line[i] == name[i]);
                assert(CompOption::is_name_char(name[i]));
            } else if i == name.len() {
                assert(line[i] == ' ');
            } else {
                assert(line[i] == tok[i - name.len() - 1]);
                assert(!is_space(tok[i - name.len() - 1]));
            }
        }
    }
    assert(line.last() == tok.last());
    assert(!is_space(tok[tok.len() - 1]));
}

proof fn lemma_decode_entries(acc: Map<CompOption, OptionValue>, es: Seq<(CompOption, OptionValue)>)
    requires
        forall|i: int| 0 <= i < es.len() ==> (#[trigger] es[i]).1.fits(es[i].0.shape()),
    ensures
        decode_from(acc, es.map_values(|e: (CompOption, OptionValue)| entry_line(e))) == Ok::<
            Map<CompOption, OptionValue>,
            CodecError,
        >(insert_all(acc, es)),
    decreases es.len(),
{
    let f = |e: (CompOption, OptionValue)| entry_line(e);
    let ls = es.map_values(f);
    if es.len() > 0 {
        assert(es[0].1.fits(es[0].0.shape()));
        lemma_entry_line(es[0].0, es[0].1);
        assert(ls[0] == entry_line(es[0]));
        assert(ls.drop_first() =~= es.drop_first().map_values(f));
        assert forall|i: int| 0 <= i < es.drop_first().len() implies (#[trigger] es.drop_first()[i]).1.fits(
            es.drop_first()[i].0.shape(),
        ) by {
            assert(es.drop_first()[i] == es[i + 1]);
        }
        lemma_decode_entries(acc.insert(es[0].0, es[0].1), es.drop_first());
    }
}

proof fn lemma_insert_all_push(
    acc: Map<CompOption, OptionValue>,
    es: Seq<(CompOption, OptionValue)>,
    e: (CompOption, OptionValue),
)
    ensures
        insert_all(acc, es.push(e)) == insert_all(acc, es).insert(e.0, e.1),
    decreases es.len(),
{
    if es.len() == 0 {
        assert(es.push(e).drop_first() =~= Seq::<(CompOption, OptionValue)>::empty());
        assert(insert_all(acc.insert(e.0, e.1), Seq::<(CompOption, OptionValue)>::empty()) == acc.insert(e.0, e.1));
    } else {
        assert(es.push(e).drop_first() =~= es.drop_first().push(e));
        lemma_insert_all_push(acc.insert(es[0].0, es[0].1), es.drop_first(), e);
    }
}

proof fn lemma_insert_entries(m: Map<CompOption, OptionValue>, n: nat)
    requires
        n <= OPTION_COUNT,
    ensures
        insert_all(Map::empty(), entries_upto(m, n)) == m.restrict(
            Set::new(|k: CompOption| k.index() < n),
        ),
    decreases n,
{
    if n == 0 {
        assert(m.restrict(Set::new(|k: CompOption| k.index() < n)) =~= Map::empty());
    } else {
        let p = (n - 1) as nat;
        lemma_insert_entries(m, p);
        CompOption::lemma_from_index(p);
        let o = CompOption::from_index(p);
        let rest = entries_upto(m, p);
        assert forall|k: CompOption| k.index() == p implies k == o by {
            k.lemma_index();
        }
        if m.contains_key(o) {
            lemma_insert_all_push(Map::empty(), rest, (o, m[o]));
        }
        assert(insert_all(Map::empty(), entries_upto(m, n)) =~= m.restrict(
            Set::new(|k: CompOption| k.index() < n),
        ));
    }
}

/// The text of a map whose values fit their options reads back as that map.
proof fn lemma_round_trip_map(m: Map<CompOption, OptionValue>)
    requires
        values_fit(m),
    ensures
        decode_spec(encode_spec(m)) == Ok::<Map<CompOption, OptionValue>, CodecError>(m),
{
    let f = |e: (CompOption, OptionValue)| entry_line(e);
    let es = ordered_entries(m);
    let ls = es.map_values(f);
    lemma_entries_upto(m, OPTION_COUNT as nat);
    assert forall|i: int| 0 <= i < es.len() implies (#[trigger] es[i]).1.fits(es[i].0.shape()) by {
        assert(m.contains_key(es[i].0));
    }
    assert forall|i: int| 0 <= i < ls.len() implies plain_line(#[trigger] ls[i]) by {
        assert(es[i].1.fits(es[i].0.shape()));
        lemma_entry_line(es[i].0, es[i].1);
    }
    lemma_lines_of_joined(ls);
    lemma_decode_entries(Map::empty(), es);
    lemma_insert_entries(m, OPTION_COUNT as nat);
    assert forall|k: CompOption| true implies k.index() < OPTION_COUNT by {
        k.lemma_index();
    }
    assert(m.restrict(Set::new(|k: CompOption| k.index() < OPTION_COUNT as nat)) =~= m);
}

/// Writing an option set whose values all fit their options and reading the
/// text back gives the same set.
pub proof fn lemma_round_trip(o: Options)
    requires
        values_fit(o@),
    ensures
        decode_spec(encode_spec(o@)) == Ok::<Map<CompOption, OptionValue>, CodecError>(o@),
{
    lemma_round_trip_map(o@);
}

proof fn lemma_decode_from_fits(acc: Map<CompOption, OptionValue>, ls: Seq<Seq<char>>)
    requires
        values_fit(acc),
    ensures
        decode_from(acc, ls) matches Ok(m) ==> values_fit(m),
    decreases ls.len(),
{
    if ls.len() > 0 {
        if let Ok(e) = parse_line(ls[0]) {
            assert(e.1.fits(e.0.shape()));
            lemma_decode_from_fits(acc.insert(e.0, e.1), ls.drop_first());
        }
    }
}

/// Every set read from a text holds values that fit their options: integers
/// are clamped to their bound and enumerated codes are checked.
pub proof fn lemma_decoded_values_fit(text: Seq<char>)
    ensures
        decode_spec(text) matches Ok(m) ==> values_fit(m),
{
    lemma_decode_from_fits(Map::empty(), lines_of(text));
}

/// Reading a text, writing the set, and reading that again gives the same set:
/// clamping on read is idempotent.
pub proof fn lemma_decode_encode_stable(text: Seq<char>)
    ensures
        decode_spec(text) matches Ok(m) ==> decode_spec(encode_spec(m)) == Ok::<
            Map<CompOption, OptionValue>,
            CodecError,
        >(m),
{
    lemma_decoded_values_fit(text);
    if let Ok(m) = decode_spec(text) {
        lemma_round_trip_map(m);
    }
}

} // verus!
