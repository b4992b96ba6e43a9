//! The summaries that the combats and archives tabs show for one player:
//! the hits grouped by turn, and the totals per spell in display order.

use vstd::prelude::*;
use crate::ledger::wrapping_add_i32;
use crate::model::{SpellEntry, SpellRecord, entries_view};
use crate::keyed::{find_key, has_key, keys_unique, lemma_key_index, lemma_set_value_unique, set_value, value_or};
use crate::decompose::{
    canonical_decomposition, combining_class, decompose, in_canonical_order, is_stable, lemma_canonical_decomposition_chars,
    lemma_canonical_decomposition_step, lemma_decompose_stable, lemma_mark_classes, lemma_put_in_order_props,
    lemma_put_ordered, push_decomposition, stable_not_joiner,
};
use crate::text::{lowercase_of, slice_text, to_lowercase};

verus! {

/// A combining diacritical mark (U+0300 to U+036F).
pub open spec fn is_combining_mark(c: char) -> bool {
    0x300 <= (c as u32) && (c as u32) <= 0x36f
}

/// `s` without its combining diacritical marks.
pub open spec fn strip_marks(s: Seq<char>) -> Seq<char>
    decreases s.len(),
{
    if s.len() == 0 {
        s
    } else if is_combining_mark(s.last()) {
        strip_marks(s.drop_last())
    } else {
        strip_marks(s.drop_last()).push(s.last())
    }
}

/// Calls `String::push`, which appends one character.
#[verifier::external_body]
fn push_char(s: &mut String, c: char)
    ensures
        final(s)@ == old(s)@.push(c),
{
    s.push(c)
}

/// The sort key of a spell name: its canonical decomposition (NFD), without
/// the combining diacritical marks, in lower case.
pub open spec fn accent_key(s: Seq<char>) -> Seq<char> {
    lowercase_of(strip_marks(canonical_decomposition(s)))
}

/// The sort key of a spell name, so that names sort alphabetically whatever
/// their accents and case.
pub fn clean_accents(s: &str) -> (r: String)
    ensures
        r@ == accent_key(s@),
{
    let n = s.unicode_len();
    let mut buf: Vec<char> = Vec::new();
    let mut i: usize = 0;
    assert(s@.take(0) =~= Seq::<char>::empty());
    assert(decompose(Seq::<char>::empty()) =~= Seq::<char>::empty());
    while i < n
        invariant
            n == s@.len(),
            i <= n,
            buf@ == canonical_decomposition(s@.take(i as int)),
        decreases n - i,
    {
        let c = s.get_char(i);
        proof {
            assert(s@.take(i + 1) =~= s@.take(i as int).push(c));
            lemma_canonical_decomposition_step(s@.take(i as int), c);
        }
        push_decomposition(&mut buf, c);
        i = i + 1;
    }
    assert(s@.take(n as int) =~= s@);
    let mut base = String::new();
    let mut k: usize = 0;
    assert(buf@.take(0) =~= Seq::<char>::empty());
    while k < buf.len()
        invariant
            k <= buf@.len(),
            base@ == strip_marks(buf@.take(k as int)),
        decreases buf@.len() - k,
    {
        let c = buf[k];
        assert(buf@.take(k + 1).drop_last() =~= buf@.take(k as int));
        assert(buf@.take(k + 1).last() == c);
        let u = c as u32;
        if !(0x300 <= u && u <= 0x36f) {
            push_char(&mut base, c);
        }
        k = k + 1;
    }
    assert(buf@.take(buf@.len() as int) =~= buf@);
    to_lowercase(base.as_str())
}

/// Once its letters are decomposed and its accents dropped, a text holds no
/// combining mark, so the key that `clean_accents` lowers holds none either.
pub proof fn law_accent_free_before_lowering(s: Seq<char>)
    ensures
        forall|k: int| 0 <= k < strip_marks(canonical_decomposition(s)).len() ==> !is_combining_mark(
            #[trigger] strip_marks(canonical_decomposition(s))[k],
        ),
{
    lemma_strip_leaves_no_mark(canonical_decomposition(s));
}

/// Dropping the marks keeps the order of the other characters' classes
/// when no dropped mark has class 0: the text stays in canonical order, and
/// a class of the last character kept is at most that of the last character.
proof fn lemma_strip_keeps_order(t: Seq<char>)
    requires
        in_canonical_order(t),
        forall|k: int| 0 <= k < t.len() ==> #[trigger] t[k] != '\u{34f}',
    ensures
        in_canonical_order(strip_marks(t)),
        strip_marks(t).len() > 0 && combining_class(t.last()) > 0 ==> combining_class(strip_marks(t).last())
            <= combining_class(t.last()),
        strip_marks(t).len() > 0 ==> t.len() > 0,
    decreases t.len(),
{
    if t.len() > 0 {
        let t1 = t.drop_last();
        let x = t.last();
        assert(in_canonical_order(t1)) by {
            assert forall|i: int| 0 <= i && i + 1 < t1.len() implies !(combining_class(#[trigger] t1[i])
                > combining_class(t1[i + 1]) && combining_class(t1[i + 1]) > 0) by {
                assert(t1[i] == t[i] && t1[i + 1] == t[i + 1]);
            }
        }
        assert forall|k: int| 0 <= k < t1.len() implies #[trigger] t1[k] != '\u{34f}' by {
            assert(t1[k] == t[k]);
        }
        lemma_strip_keeps_order(t1);
        assert(t[t.len() - 1] == x);
        if t1.len() > 0 {
            assert(t[t.len() - 2] == t1.last());
            assert(t1[t1.len() - 1] == t1.last());
            if is_combining_mark(t1.last()) {
                lemma_mark_classes(t1.last());
            }
        }
        let p = strip_marks(t1);
        if is_combining_mark(x) {
            lemma_mark_classes(x);
        } else {
            assert(strip_marks(t) == p.push(x));
            assert forall|i: int| 0 <= i && i + 1 < p.push(x).len() implies !(combining_class(
                #[trigger] p.push(x)[i],
            ) > combining_class(p.push(x)[i + 1]) && combining_class(p.push(x)[i + 1]) > 0) by {
                if i + 1 < p.len() {
                    assert(p.push(x)[i] == p[i] && p.push(x)[i + 1] == p[i + 1]);
                } else {
                    assert(p.push(x)[i] == p.last() && p.push(x)[i + 1] == x);
                    assert(p[p.len() - 1] == p.last());
                    if !is_combining_mark(t1.last()) {
                        assert(p == strip_marks(t1.drop_last()).push(t1.last()));
                    }
                }
            }
        }
    }
}

proof fn lemma_strip_without_marks(t: Seq<char>)
    requires
        forall|k: int| 0 <= k < t.len() ==> !is_combining_mark(#[trigger] t[k]),
    ensures
        strip_marks(t) == t,
    decreases t.len(),
{
    if t.len() > 0 {
        let t1 = t.drop_last();
        assert forall|k: int| 0 <= k < t1.len() implies !is_combining_mark(#[trigger] t1[k]) by {
            assert(t1[k] == t[k]);
        }
        lemma_strip_without_marks(t1);
        assert(t[t.len() - 1] == t.last());
        assert(t1.push(t.last()) =~= t);
    }
}

proof fn lemma_strip_drawn(t: Seq<char>)
    ensures
        forall|k: int| 0 <= k < strip_marks(t).len() ==> t.contains(#[trigger] strip_marks(t)[k]),
    decreases t.len(),
{
    if t.len() > 0 {
        let t1 = t.drop_last();
        lemma_strip_drawn(t1);
        let p = strip_marks(t1);
        assert(t[t.len() - 1] == t.last());
        assert forall|k: int| 0 <= k < strip_marks(t).len() implies t.contains(#[trigger] strip_marks(t)[k]) by {
            if k < p.len() {
                assert(strip_marks(t)[k] == p[k]);
                let j = choose|j: int| 0 <= j < t1.len() && t1[j] == p[k];
                assert(t[j] == t1[j]);
            }
        }
    }
}

/// The key before lower-casing, of a text without the joiner U+034F, holds
/// no combining mark, and cleaning it again gives it back.
pub proof fn law_accent_key_is_stable(s: Seq<char>)
    requires
        !s.contains('\u{34f}'),
    ensures
        forall|k: int| 0 <= k < strip_marks(canonical_decomposition(s)).len() ==> !is_combining_mark(
            #[trigger] strip_marks(canonical_decomposition(s))[k],
        ),
        strip_marks(canonical_decomposition(strip_marks(canonical_decomposition(s)))) == strip_marks(
            canonical_decomposition(s),
        ),
{
    let cd = canonical_decomposition(s);
    let key = strip_marks(cd);
    lemma_strip_leaves_no_mark(cd);
    lemma_canonical_decomposition_chars(s);
    lemma_put_in_order_props(Seq::empty(), decompose(s));
    assert(in_canonical_order(Seq::<char>::empty()));
    assert forall|k: int| 0 <= k < cd.len() implies #[trigger] cd[k] != '\u{34f}' by {
        assert(stable_not_joiner(cd[k]));
    }
    lemma_strip_keeps_order(cd);
    lemma_strip_drawn(cd);
    assert forall|k: int| 0 <= k < key.len() implies is_stable(#[trigger] key[k]) by {
        let j = choose|j: int| 0 <= j < cd.len() && cd[j] == key[k];
        assert(stable_not_joiner(cd[j]));
    }
    lemma_decompose_stable(key);
    lemma_put_ordered(key);
    lemma_strip_without_marks(key);
}

proof fn lemma_strip_leaves_no_mark(t: Seq<char>)
    ensures
        forall|k: int| 0 <= k < strip_marks(t).len() ==> !is_combining_mark(#[trigger] strip_marks(t)[k]),
    decreases t.len(),
{
    if t.len() > 0 {
        lemma_strip_leaves_no_mark(t.drop_last());
        let p = strip_marks(t.drop_last());
        if !is_combining_mark(t.last()) {
            assert forall|k: int| 0 <= k < p.push(t.last()).len() implies !is_combining_mark(
                #[trigger] p.push(t.last())[k],
            ) by {
                if k < p.len() {
                    assert(p.push(t.last())[k] == p[k]);
                }
            }
        }
    }
}


/// One line of a turn: spell, damage, indirect or not.
pub open spec fn line_of(e: SpellRecord) -> (Seq<char>, i32, bool) {
    (e.spell, e.total, e.is_indirect)
}

/// The lines of the entries played in turn `t`, in their order.
pub open spec fn turn_lines(es: Seq<SpellRecord>, t: i32) -> Seq<(Seq<char>, i32, bool)>
    decreases es.len(),
{
    if es.len() == 0 {
        Seq::empty()
    } else if es.last().turn == t {
        turn_lines(es.drop_last(), t).push(line_of(es.last()))
    } else {
        turn_lines(es.drop_last(), t)
    }
}

/// The damage of some lines, added up as an optimised build does on `i32`.
pub open spec fn lines_total(ls: Seq<(Seq<char>, i32, bool)>) -> i32
    decreases ls.len(),
{
    if ls.len() == 0 {
        0
    } else {
        wrapping_add_i32(lines_total(ls.drop_last()), ls.last().1)
    }
}

pub open spec fn lines_view(v: Seq<(String, i32, bool)>) -> Seq<(Seq<char>, i32, bool)> {
    v.map_values(|l: (String, i32, bool)| (l.0@, l.1, l.2))
}

pub open spec fn blocks_view(v: Seq<(i32, Vec<(String, i32, bool)>, i32)>) -> Seq<(i32, Seq<(Seq<char>, i32, bool)>, i32)> {
    v.map_values(|b: (i32, Vec<(String, i32, bool)>, i32)| (b.0, lines_view(b.1@), b.2))
}

/// Some entry is played in turn `t`.
pub open spec fn has_turn(es: Seq<SpellRecord>, t: i32) -> bool {
    exists|i: int| 0 <= i < es.len() && #[trigger] es[i].turn == t
}

/// The turn blocks of a player's entries: one block per turn that has
/// entries, from the first turn to the last, each with its lines in order and
/// its total.
pub open spec fn is_turn_breakdown(blocks: Seq<(i32, Seq<(Seq<char>, i32, bool)>, i32)>, es: Seq<SpellRecord>) -> bool {
    &&& forall|k: int| 0 <= k < blocks.len() ==> #[trigger] blocks[k].1 == turn_lines(es, blocks[k].0)
        && blocks[k].2 == lines_total(turn_lines(es, blocks[k].0))
    &&& forall|a: int, b: int| 0 <= a < b < blocks.len() ==> blocks[a].0 < blocks[b].0
    &&& forall|k: int| 0 <= k < blocks.len() ==> has_turn(es, #[trigger] blocks[k].0)
    &&& forall|i: int| 0 <= i < es.len() ==> has_block(blocks, #[trigger] es[i].turn)
}

/// Some block is for turn `t`.
pub open spec fn has_block(blocks: Seq<(i32, Seq<(Seq<char>, i32, bool)>, i32)>, t: i32) -> bool {
    exists|k: int| 0 <= k < blocks.len() && #[trigger] blocks[k].0 == t
}

/// The lines of the entries played in turn `t`, with their total.
pub fn lines_of_turn(es: &Vec<SpellEntry>, t: i32) -> (r: (Vec<(String, i32, bool)>, i32))
    ensures
        lines_view(r.0@) == turn_lines(entries_view(es@), t),
        r.1 == lines_total(turn_lines(entries_view(es@), t)),
{
    let mut lines: Vec<(String, i32, bool)> = Vec::new();
    let mut total: i32 = 0;
    let mut i: usize = 0;
    while i < es.len()
        invariant
            i <= es@.len(),
            lines_view(lines@) == turn_lines(entries_view(es@.take(i as int)), t),
            total == lines_total(turn_lines(entries_view(es@.take(i as int)), t)),
        decreases es@.len() - i,
    {
        proof {
            assert(entries_view(es@.take(i + 1)).drop_last() =~= entries_view(es@.take(i as int)));
            assert(entries_view(es@.take(i + 1)).last() == es@[i as int]@);
        }
        if es[i].turn == t {
            let ghost before = lines_view(lines@);
            lines.push((es[i].spell.clone(), es[i].total, es[i].is_indirect));
            total = total.wrapping_add(es[i].total);
            proof {
                assert(lines_view(lines@) =~= before.push(line_of(es@[i as int]@)));
                assert(lines_view(lines@).drop_last() =~= before);
            }
        }
        i = i + 1;
    }
    assert(es@.take(es@.len() as int) =~= es@);
    (lines, total)
}

/// The turns that have entries, from the first to the last.
pub fn turns_of(es: &Vec<SpellEntry>) -> (r: Vec<i32>)
    ensures
        forall|a: int, b: int| 0 <= a < b < r@.len() ==> r@[a] < r@[b],
        forall|k: int| 0 <= k < r@.len() ==> has_turn(entries_view(es@), #[trigger] r@[k]),
        forall|i: int| 0 <= i < es@.len() ==> #[trigger] r@.contains(es@[i].turn),
{
    let mut r: Vec<i32> = Vec::new();
    let mut i: usize = 0;
    while i < es.len()
        invariant
            i <= es@.len(),
            forall|a: int, b: int| 0 <= a < b < r@.len() ==> r@[a] < r@[b],
            forall|k: int| 0 <= k < r@.len() ==> has_turn(entries_view(es@), #[trigger] r@[k]),
            forall|j: int| 0 <= j < i ==> #[trigger] r@.contains(es@[j].turn),
        decreases es@.len() - i,
    {
        let t = es[i].turn;
        assert(entries_view(es@)[i as int].turn == t);
        let mut pos: usize = 0;
        while pos < r.len() && r[pos] < t
            invariant
                pos <= r@.len(),
                forall|j: int| 0 <= j < pos ==> r@[j] < t,
            decreases r@.len() - pos,
        {
            pos = pos + 1;
        }
        if pos < r.len() && r[pos] == t {
            assert(r@[pos as int] == t);
        } else {
            let ghost before = r@;
            r.insert(pos, t);
            proof {
                assert forall|a: int, b: int| 0 <= a < b < r@.len() implies r@[a] < r@[b] by {
                    if b < pos {
                    } else if b == pos {
                        assert(r@[a] == before[a]);
                    } else if a < pos {
                        assert(r@[a] == before[a]);
                        assert(r@[b] == before[b - 1]);
                    } else if a == pos {
                        assert(r@[b] == before[b - 1]);
                        assert(before[pos as int] > t);
                    } else {
                        assert(r@[a] == before[a - 1]);
                        assert(r@[b] == before[b - 1]);
                    }
                }
                assert forall|k: int| 0 <= k < r@.len() implies has_turn(entries_view(es@), #[trigger] r@[k]) by {
                    if k < pos {
                        assert(r@[k] == before[k]);
                    } else if k > pos {
                        assert(r@[k] == before[k - 1]);
                    }
                }
                assert forall|j: int| 0 <= j <= i implies #[trigger] r@.contains(es@[j].turn) by {
                    if j < i {
                        assert(before.contains(es@[j].turn));
                        let w = choose|w: int| 0 <= w < before.len() && before[w] == es@[j].turn;
                        if w < pos {
                            assert(r@[w] == before[w]);
                        } else {
                            assert(r@[w + 1] == before[w]);
                        }
                    } else {
                        assert(r@[pos as int] == t);
                    }
                }
            }
        }
        i = i + 1;
    }
    r
}

/// The entries of one player grouped by turn, turns in increasing order,
/// each with its lines (spell, damage, indirect) and its total.
pub fn turn_breakdown(es: &Vec<SpellEntry>) -> (r: Vec<(i32, Vec<(String, i32, bool)>, i32)>)
    ensures
        is_turn_breakdown(blocks_view(r@), entries_view(es@)),
{
    let turns = turns_of(es);
    let mut r: Vec<(i32, Vec<(String, i32, bool)>, i32)> = Vec::new();
    let mut k: usize = 0;
    while k < turns.len()
        invariant
            k <= turns@.len(),
            r@.len() == k,
            forall|j: int| 0 <= j < k ==> #[trigger] blocks_view(r@)[j].0 == turns@[j],
            forall|j: int| 0 <= j < k ==> #[trigger] blocks_view(r@)[j].1 == turn_lines(entries_view(es@), turns@[j])
                && blocks_view(r@)[j].2 == lines_total(turn_lines(entries_view(es@), turns@[j])),
        decreases turns@.len() - k,
    {
        let t = turns[k];
        let (lines, total) = lines_of_turn(es, t);
        let ghost before = blocks_view(r@);
        let ghost lv = lines_view(lines@);
        r.push((t, lines, total));
        assert(blocks_view(r@) =~= before.push((t, lv, total)));
        k = k + 1;
    }
    proof {
        let bv = blocks_view(r@);
        let ev = entries_view(es@);
        assert forall|i: int| 0 <= i < ev.len() implies has_block(bv, #[trigger] ev[i].turn) by {
            assert(turns@.contains(es@[i].turn));
            let w = choose|w: int| 0 <= w < turns@.len() && turns@[w] == es@[i].turn;
            assert(bv[w].0 == ev[i].turn);
        }
        assert forall|j: int| 0 <= j < bv.len() implies has_turn(ev, #[trigger] bv[j].0) by {
            assert(bv[j].0 == turns@[j]);
        }
    }
    r
}


/// `a` comes before `b` in the order of `String` (character by character).
pub open spec fn text_lt(a: Seq<char>, b: Seq<char>) -> bool
    decreases a.len(),
{
    if a.len() == 0 {
        b.len() > 0
    } else if b.len() == 0 {
        false
    } else if a[0] != b[0] {
        (a[0] as u32) < (b[0] as u32)
    } else {
        text_lt(a.skip(1), b.skip(1))
    }
}

pub proof fn lemma_text_lt_asym(a: Seq<char>, b: Seq<char>)
    ensures
        !(text_lt(a, b) && text_lt(b, a)),
    decreases a.len(),
{
    if a.len() > 0 && b.len() > 0 && a[0] == b[0] {
        lemma_text_lt_asym(a.skip(1), b.skip(1));
    }
}

pub proof fn lemma_text_lt_trans(a: Seq<char>, b: Seq<char>, c: Seq<char>)
    requires
        text_lt(a, b),
        text_lt(b, c),
    ensures
        text_lt(a, c),
    decreases a.len(),
{
    if a.len() > 0 && b.len() > 0 && c.len() > 0 && a[0] == b[0] && b[0] == c[0] {
        lemma_text_lt_trans(a.skip(1), b.skip(1), c.skip(1));
    }
}

/// Whether `a` comes before `b` in the order of `String`.
pub fn text_less(a: &str, b: &str) -> (r: bool)
    ensures
        r == text_lt(a@, b@),
{
    let n = a.unicode_len();
    let m = b.unicode_len();
    let mut i: usize = 0;
    assert(a@.skip(0) =~= a@);
    assert(b@.skip(0) =~= b@);
    while i < n && i < m
        invariant
            n == a@.len(),
            m == b@.len(),
            i <= n,
            i <= m,
            text_lt(a@, b@) == text_lt(a@.skip(i as int), b@.skip(i as int)),
        decreases n - i,
    {
        let x = a.get_char(i);
        let y = b.get_char(i);
        if x != y {
            return (x as u32) < (y as u32);
        }
        proof {
            assert(a@.skip(i as int).skip(1) =~= a@.skip(i + 1));
            assert(b@.skip(i as int).skip(1) =~= b@.skip(i + 1));
        }
        i = i + 1;
    }
    i == n && i < m
}

/// The damage per spell of a player's entries, spells in the order of their
/// first entry: the damage added up, the kind (indirect or not) that of the
/// spell's first entry.
pub open spec fn spell_totals(es: Seq<SpellRecord>) -> Seq<(Seq<char>, (i32, bool))>
    decreases es.len(),
{
    if es.len() == 0 {
        Seq::empty()
    } else {
        let acc = spell_totals(es.drop_last());
        let e = es.last();
        let cur = value_or(acc, e.spell, (0i32, e.is_indirect));
        set_value(acc, e.spell, (wrapping_add_i32(cur.0, e.total), cur.1))
    }
}

/// The rows of the recap: spell, damage, indirect or not.
pub open spec fn recap_rows(es: Seq<SpellRecord>) -> Seq<(Seq<char>, i32, bool)> {
    spell_totals(es).map_values(|p: (Seq<char>, (i32, bool))| (p.0, p.1.0, p.1.1))
}

/// Display order of the recap: more damage first; at equal damage direct
/// before indirect; then alphabetically, whatever the accents and case.
pub open spec fn recap_before(x: (Seq<char>, i32, bool), y: (Seq<char>, i32, bool)) -> bool {
    ||| x.1 > y.1
    ||| (x.1 == y.1 && !x.2 && y.2)
    ||| (x.1 == y.1 && x.2 == y.2 && text_lt(accent_key(x.0), accent_key(y.0)))
}

pub proof fn lemma_recap_before_asym(x: (Seq<char>, i32, bool), y: (Seq<char>, i32, bool))
    ensures
        !(recap_before(x, y) && recap_before(y, x)),
{
    lemma_text_lt_asym(accent_key(x.0), accent_key(y.0));
}

pub proof fn lemma_recap_before_trans(x: (Seq<char>, i32, bool), y: (Seq<char>, i32, bool), z: (Seq<char>, i32, bool))
    requires
        recap_before(x, y),
        recap_before(y, z),
    ensures
        recap_before(x, z),
{
    if x.1 == y.1 && y.1 == z.1 && x.2 == y.2 && y.2 == z.2 {
        lemma_text_lt_trans(accent_key(x.0), accent_key(y.0), accent_key(z.0));
    }
}

pub open spec fn rows_view(v: Seq<(String, i32, bool)>) -> Seq<(Seq<char>, i32, bool)> {
    v.map_values(|l: (String, i32, bool)| (l.0@, l.1, l.2))
}

pub open spec fn spell_totals_view(v: Seq<(String, (i32, bool))>) -> Seq<(Seq<char>, (i32, bool))> {
    v.map_values(|p: (String, (i32, bool))| (p.0@, p.1))
}

/// The damage per spell of a player's entries.
pub fn spell_totals_of(es: &Vec<SpellEntry>) -> (r: Vec<(String, (i32, bool))>)
    ensures
        spell_totals_view(r@) == spell_totals(entries_view(es@)),
        keys_unique(spell_totals_view(r@)),
{
    let mut r: Vec<(String, (i32, bool))> = Vec::new();
    let mut i: usize = 0;
    while i < es.len()
        invariant
            i <= es@.len(),
            spell_totals_view(r@) == spell_totals(entries_view(es@.take(i as int))),
            keys_unique(spell_totals_view(r@)),
        decreases es@.len() - i,
    {
        let ghost acc = spell_totals_view(r@);
        let ghost ev = es@[i as int]@;
        proof {
            assert(entries_view(es@.take(i + 1)).drop_last() =~= entries_view(es@.take(i as int)));
            assert(entries_view(es@.take(i + 1)).last() == ev);
        }
        let ghost cur = value_or(acc, ev.spell, (0i32, ev.is_indirect));
        let ghost newv = (wrapping_add_i32(cur.0, ev.total), cur.1);
        proof {
            lemma_set_value_unique(acc, ev.spell, newv);
        }
        match find_key(&r, es[i].spell.as_str()) {
            Some(k) => {
                proof {
                    assert(acc[k as int].0 == ev.spell);
                    lemma_key_index(acc, ev.spell, k as int);
                }
                let old_total = r[k].1.0;
                r[k].1.0 = old_total.wrapping_add(es[i].total);
                assert(spell_totals_view(r@) =~= set_value(acc, ev.spell, newv));
            },
            None => {
                proof {
                    assert(!has_key(acc, ev.spell)) by {
                        if has_key(acc, ev.spell) {
                            let j = choose|j: int| 0 <= j < acc.len() && #[trigger] acc[j].0 == ev.spell;
                            assert(r@[j].0@ != ev.spell);
                        }
                    }
                }
                r.push((es[i].spell.clone(), (es[i].total, es[i].is_indirect)));
                assert(spell_totals_view(r@) =~= set_value(acc, ev.spell, newv));
            },
        }
        i = i + 1;
    }
    assert(es@.take(es@.len() as int) =~= es@);
    r
}

/// Whether row `a` comes before row `b` in the recap.
pub fn recap_less(a: &(String, i32, bool), b: &(String, i32, bool)) -> (r: bool)
    ensures
        r == recap_before((a.0@, a.1, a.2), (b.0@, b.1, b.2)),
{
    if a.1 != b.1 {
        return a.1 > b.1;
    }
    if a.2 != b.2 {
        return !a.2 && b.2;
    }
    let ka = clean_accents(a.0.as_str());
    let kb = clean_accents(b.0.as_str());
    text_less(ka.as_str(), kb.as_str())
}

/// The rows are in recap order.
pub open spec fn recap_sorted(rows: Seq<(Seq<char>, i32, bool)>) -> bool {
    forall|i: int, j: int| 0 <= i < j < rows.len() ==> !recap_before(rows[j], rows[i])
}

/// The recap of a player's entries: each spell once with its damage and its
/// kind, in recap order.
pub fn spell_recap(es: &Vec<SpellEntry>) -> (r: Vec<(String, i32, bool)>)
    ensures
        recap_sorted(rows_view(r@)),
        rows_view(r@).to_multiset() == recap_rows(entries_view(es@)).to_multiset(),
{
    let totals = spell_totals_of(es);
    let ghost src = recap_rows(entries_view(es@));
    assert(src =~= spell_totals_view(totals@).map_values(|p: (Seq<char>, (i32, bool))| (p.0, p.1.0, p.1.1)));
    let mut r: Vec<(String, i32, bool)> = Vec::new();
    let mut k: usize = 0;
    assert(rows_view(r@) =~= src.take(0));
    while k < totals.len()
        invariant
            k <= totals@.len(),
            src.len() == totals@.len(),
            forall|j: int| 0 <= j < totals@.len() ==> #[trigger] src[j] == (totals@[j].0@, totals@[j].1.0, totals@[j].1.1),
            recap_sorted(rows_view(r@)),
            rows_view(r@).to_multiset() == src.take(k as int).to_multiset(),
        decreases totals@.len() - k,
    {
        let x = (totals[k].0.clone(), totals[k].1.0, totals[k].1.1);
        let ghost xv = (x.0@, x.1, x.2);
        assert(xv == src[k as int]);
        let mut pos: usize = 0;
        while pos < r.len() && !recap_less(&x, &r[pos])
            invariant
                pos <= r@.len(),
                xv == (x.0@, x.1, x.2),
                forall|j: int| 0 <= j < pos ==> !recap_before(xv, #[trigger] rows_view(r@)[j]),
            decreases r@.len() - pos,
        {
            pos = pos + 1;
        }
        let ghost before = rows_view(r@);
        proof {
            if pos < r@.len() {
                assert(recap_before(xv, before[pos as int]));
            }
        }
        r.insert(pos, x);
        proof {
            assert(rows_view(r@) =~= before.insert(pos as int, xv));
            vstd::seq_lib::to_multiset_insert(before, pos as int, xv);
            assert(src.take(k + 1) =~= src.take(k as int).push(xv));
            vstd::seq_lib::to_multiset_build(src.take(k as int), xv);
            let rv = rows_view(r@);
            assert forall|i: int, j: int| 0 <= i < j < rv.len() implies !recap_before(rv[j], rv[i]) by {
                if j < pos {
                    assert(rv[i] == before[i] && rv[j] == before[j]);
                } else if j == pos {
                    assert(rv[i] == before[i]);
                } else if i < pos {
                    assert(rv[i] == before[i]);
                    assert(rv[j] == before[j - 1]);
                } else if i == pos {
                    assert(rv[j] == before[j - 1]);
                    let y = before[pos as int];
                    if j - 1 == pos {
                        lemma_recap_before_asym(xv, y);
                    } else {
                        assert(!recap_before(before[j - 1], y));
                        if recap_before(before[j - 1], xv) {
                            lemma_recap_before_trans(before[j - 1], xv, y);
                        }
                    }
                } else {
                    assert(rv[i] == before[i - 1]);
                    assert(rv[j] == before[j - 1]);
                }
            }
        }
        k = k + 1;
    }
    assert(src.take(totals@.len() as int) =~= src);
    r
}

} // verus!
