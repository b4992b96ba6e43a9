//! The figures of the statistics tab: players ranked by damage, a player's
//! damage per spell, the runs of entries of one turn, and the latest actions.

use vstd::prelude::*;
use crate::keyed::{find_key, has_key, keys_unique, lemma_key_index, lemma_set_value_unique, set_value, value_or};
use crate::ledger::wrapping_add_i32;
use crate::model::{SpellEntry, SpellRecord, entries_view, history_view, names_view, totals_view};

verus! {

/// The players are listed from the most to the least damage (a player with
/// no total counts 0).
pub open spec fn ranked_by(names: Seq<Seq<char>>, totals: Seq<(Seq<char>, i32)>) -> bool {
    forall|i: int, j: int|
        0 <= i < j < names.len() ==> value_or(totals, names[i], 0i32) >= value_or(totals, names[j], 0i32)
}

/// The total of `who`, 0 when there is none.
pub fn total_of(totals: &Vec<(String, i32)>, who: &String) -> (r: i32)
    requires
        keys_unique(totals_view(totals@)),
    ensures
        r == value_or(totals_view(totals@), who@, 0i32),
{
    match find_key(totals, who.as_str()) {
        Some(i) => {
            proof {
                lemma_key_index(totals_view(totals@), who@, i as int);
            }
            totals[i].1
        },
        None => {
            proof {
                let tv = totals_view(totals@);
                if has_key(tv, who@) {
                    let j = choose|j: int| 0 <= j < tv.len() && #[trigger] tv[j].0 == who@;
                    assert(totals@[j].0@ != who@);
                }
            }
            0
        },
    }
}

/// The players ranked from the most to the least damage.
pub fn rank_players(names: &Vec<String>, totals: &Vec<(String, i32)>) -> (r: Vec<String>)
    requires
        keys_unique(totals_view(totals@)),
    ensures
        ranked_by(names_view(r@), totals_view(totals@)),
        names_view(r@).to_multiset() == names_view(names@).to_multiset(),
{
    let ghost tv = totals_view(totals@);
    let mut r: Vec<String> = Vec::new();
    let mut k: usize = 0;
    assert(names_view(r@) =~= names_view(names@.take(0)));
    while k < names.len()
        invariant
            k <= names@.len(),
            tv == totals_view(totals@),
            keys_unique(tv),
            ranked_by(names_view(r@), tv),
            names_view(r@).to_multiset() == names_view(names@.take(k as int)).to_multiset(),
        decreases names@.len() - k,
    {
        let x = names[k].clone();
        let vx = total_of(totals, &x);
        let mut pos: usize = 0;
        while pos < r.len() && total_of(totals, &r[pos]) >= vx
            invariant
                pos <= r@.len(),
                tv == totals_view(totals@),
                keys_unique(tv),
                vx == value_or(tv, x@, 0i32),
                forall|j: int| 0 <= j < pos ==> value_or(tv, #[trigger] names_view(r@)[j], 0i32) >= vx,
            decreases r@.len() - pos,
        {
            pos = pos + 1;
        }
        let ghost before = names_view(r@);
        proof {
            if pos < r@.len() {
                assert(value_or(tv, before[pos as int], 0i32) < vx);
            }
        }
        r.insert(pos, x);
        proof {
            assert(names_view(r@) =~= before.insert(pos as int, x@));
            vstd::seq_lib::to_multiset_insert(before, pos as int, x@);
            assert(names_view(names@.take(k + 1)) =~= names_view(names@.take(k as int)).push(x@));
            vstd::seq_lib::to_multiset_build(names_view(names@.take(k as int)), x@);
            let rv = names_view(r@);
            assert forall|i: int, j: int| 0 <= i < j < rv.len() implies value_or(tv, rv[i], 0i32) >= value_or(tv, rv[j], 0i32) by {
                if j < pos {
                    assert(rv[i] == before[i] && rv[j] == before[j]);
                } else if j == pos {
                    assert(rv[i] == before[i]);
                } else if i < pos {
                    assert(rv[i] == before[i]);
                    assert(rv[j] == before[j - 1]);
                } else if i == pos {
                    assert(rv[j] == before[j - 1]);
                } else {
                    assert(rv[i] == before[i - 1]);
                    assert(rv[j] == before[j - 1]);
                }
            }
        }
        k = k + 1;
    }
    assert(names@.take(names@.len() as int) =~= names@);
    r
}

/// How the statistics tab names a spell: indirect effects carry
/// " (indirect)".
pub open spec fn stats_label(e: SpellRecord) -> Seq<char> {
    if e.is_indirect {
        e.spell + " (indirect)"@
    } else {
        e.spell
    }
}

/// The damage per label of a player's entries, labels in the order of their
/// first entry, with the kind of that first entry.
pub open spec fn label_totals(es: Seq<SpellRecord>) -> Seq<(Seq<char>, (i32, bool))>
    decreases es.len(),
{
    if es.len() == 0 {
        Seq::empty()
    } else {
        let acc = label_totals(es.drop_last());
        let e = es.last();
        let cur = value_or(acc, stats_label(e), (0i32, e.is_indirect));
        set_value(acc, stats_label(e), (wrapping_add_i32(cur.0, e.total), cur.1))
    }
}

pub open spec fn label_rows_view(v: Seq<(String, (i32, bool))>) -> Seq<(Seq<char>, (i32, bool))> {
    v.map_values(|p: (String, (i32, bool))| (p.0@, p.1))
}

/// The rows are listed from the most to the least damage.
pub open spec fn rows_by_damage(rows: Seq<(Seq<char>, (i32, bool))>) -> bool {
    forall|i: int, j: int| 0 <= i < j < rows.len() ==> rows[i].1.0 >= rows[j].1.0
}

/// The damage per spell of a player's entries, as the statistics tab lists
/// it: indirect effects labelled apart, from the most to the least damage.
pub fn player_spell_totals(es: &Vec<SpellEntry>) -> (r: Vec<(String, (i32, bool))>)
    ensures
        rows_by_damage(label_rows_view(r@)),
        label_rows_view(r@).to_multiset() == label_totals(entries_view(es@)).to_multiset(),
{
    let mut acc: Vec<(String, (i32, bool))> = Vec::new();
    let mut i: usize = 0;
    while i < es.len()
        invariant
            i <= es@.len(),
            label_rows_view(acc@) == label_totals(entries_view(es@.take(i as int))),
            keys_unique(label_rows_view(acc@)),
        decreases es@.len() - i,
    {
        let ghost av = label_rows_view(acc@);
        let ghost ev = es@[i as int]@;
        proof {
            assert(entries_view(es@.take(i + 1)).drop_last() =~= entries_view(es@.take(i as int)));
            assert(entries_view(es@.take(i + 1)).last() == ev);
        }
        let label = if es[i].is_indirect {
            let mut l = es[i].spell.clone();
            l.append(" (indirect)");
            l
        } else {
            es[i].spell.clone()
        };
        assert(label@ == stats_label(ev));
        let ghost cur = value_or(av, label@, (0i32, ev.is_indirect));
        let ghost newv = (wrapping_add_i32(cur.0, ev.total), cur.1);
        proof {
            lemma_set_value_unique(av, label@, newv);
        }
        match find_key(&acc, label.as_str()) {
            Some(k) => {
                proof {
                    assert(av[k as int].0 == label@);
                    lemma_key_index(av, label@, k as int);
                }
                let old_total = acc[k].1.0;
                acc[k].1.0 = old_total.wrapping_add(es[i].total);
                assert(label_rows_view(acc@) =~= set_value(av, label@, newv));
            },
            None => {
                proof {
                    assert(!has_key(av, label@)) by {
                        if has_key(av, label@) {
                            let j = choose|j: int| 0 <= j < av.len() && #[trigger] av[j].0 == label@;
                            assert(acc@[j].0@ != label@);
                        }
                    }
                }
                acc.push((label, (es[i].total, es[i].is_indirect)));
                assert(label_rows_view(acc@) =~= set_value(av, label@, newv));
            },
        }
        i = i + 1;
    }
    assert(es@.take(es@.len() as int) =~= es@);
    let ghost src = label_rows_view(acc@);
    let mut r: Vec<(String, (i32, bool))> = Vec::new();
    let mut k: usize = 0;
    assert(label_rows_view(r@) =~= src.take(0));
    while k < acc.len()
        invariant
            k <= acc@.len(),
            src == label_rows_view(acc@),
            rows_by_damage(label_rows_view(r@)),
            label_rows_view(r@).to_multiset() == src.take(k as int).to_multiset(),
        decreases acc@.len() - k,
    {
        let x = (acc[k].0.clone(), acc[k].1);
        let ghost xv = (x.0@, x.1);
        assert(xv == src[k as int]);
        let mut pos: usize = 0;
        while pos < r.len() && r[pos].1.0 >= x.1.0
            invariant
                pos <= r@.len(),
                forall|j: int| 0 <= j < pos ==> (#[trigger] label_rows_view(r@)[j]).1.0 >= x.1.0,
            decreases r@.len() - pos,
        {
            pos = pos + 1;
        }
        let ghost before = label_rows_view(r@);
        r.insert(pos, x);
        proof {
            assert(label_rows_view(r@) =~= before.insert(pos as int, xv));
            vstd::seq_lib::to_multiset_insert(before, pos as int, xv);
            assert(src.take(k + 1) =~= src.take(k as int).push(xv));
            vstd::seq_lib::to_multiset_build(src.take(k as int), xv);
            let rv = label_rows_view(r@);
            assert forall|a: int, b: int| 0 <= a < b < rv.len() implies rv[a].1.0 >= rv[b].1.0 by {
                if b < pos {
                    assert(rv[a] == before[a] && rv[b] == before[b]);
                } else if b == pos {
                    assert(rv[a] == before[a]);
                } else if a < pos {
                    assert(rv[a] == before[a]);
                    assert(rv[b] == before[b - 1]);
                } else if a == pos {
                    assert(rv[b] == before[b - 1]);
                    assert(before[pos as int].1.0 < x.1.0);
                } else {
                    assert(rv[a] == before[a - 1]);
                    assert(rv[b] == before[b - 1]);
                }
            }
        }
        k = k + 1;
    }
    assert(src.take(acc@.len() as int) =~= src);
    r
}

/// The runs of consecutive entries of the same turn, each as its turn, its
/// number of entries and its damage.
pub open spec fn turn_runs(es: Seq<SpellRecord>) -> Seq<(i32, nat, i32)>
    decreases es.len(),
{
    if es.len() == 0 {
        Seq::empty()
    } else {
        let r = turn_runs(es.drop_last());
        let e = es.last();
        if r.len() > 0 && r.last().0 == e.turn {
            r.update(r.len() - 1, (e.turn, r.last().1 + 1, wrapping_add_i32(r.last().2, e.total)))
        } else {
            r.push((e.turn, 1nat, e.total))
        }
    }
}

pub open spec fn runs_view(v: Seq<(i32, usize, i32)>) -> Seq<(i32, nat, i32)> {
    v.map_values(|x: (i32, usize, i32)| (x.0, x.1 as nat, x.2))
}

/// The runs of consecutive entries of the same turn, with their damage.
pub fn turn_runs_of(es: &Vec<SpellEntry>) -> (r: Vec<(i32, usize, i32)>)
    ensures
        runs_view(r@) == turn_runs(entries_view(es@)),
{
    let mut r: Vec<(i32, usize, i32)> = Vec::new();
    let mut i: usize = 0;
    while i < es.len()
        invariant
            i <= es@.len(),
            runs_view(r@) == turn_runs(entries_view(es@.take(i as int))),
            forall|k: int| 0 <= k < r@.len() ==> (#[trigger] r@[k]).1 <= i,
        decreases es@.len() - i,
    {
        proof {
            assert(entries_view(es@.take(i + 1)).drop_last() =~= entries_view(es@.take(i as int)));
            assert(entries_view(es@.take(i + 1)).last() == es@[i as int]@);
        }
        let ghost before = runs_view(r@);
        let n = r.len();
        if n > 0 && r[n - 1].0 == es[i].turn {
            let (t, c, tot) = r[n - 1];
            r.set(n - 1, (t, c + 1, tot.wrapping_add(es[i].total)));
            assert(runs_view(r@) =~= before.update(n - 1, (t, before[n - 1].1 + 1, wrapping_add_i32(tot, es@[i as int].total))));
        } else {
            r.push((es[i].turn, 1, es[i].total));
            assert(runs_view(r@) =~= before.push((es@[i as int].turn, 1nat, es@[i as int].total)));
        }
        i = i + 1;
    }
    assert(es@.take(es@.len() as int) =~= es@);
    r
}

/// The actions of every player, player by player, each entry once.
pub open spec fn flat_actions(h: Seq<(Seq<char>, Seq<SpellRecord>)>) -> Seq<(Seq<char>, SpellRecord)>
    decreases h.len(),
{
    if h.len() == 0 {
        Seq::empty()
    } else {
        flat_actions(h.drop_last()) + h.last().1.map_values(|e: SpellRecord| (h.last().0, e))
    }
}

pub open spec fn actions_view(v: Seq<(String, SpellEntry)>) -> Seq<(Seq<char>, SpellRecord)> {
    v.map_values(|a: (String, SpellEntry)| (a.0@, a.1@))
}

/// The actions of every player, player by player.
pub fn all_actions(h: &Vec<(String, Vec<SpellEntry>)>) -> (r: Vec<(String, SpellEntry)>)
    ensures
        actions_view(r@) == flat_actions(history_view(h@)),
{
    let mut r: Vec<(String, SpellEntry)> = Vec::new();
    let mut p: usize = 0;
    while p < h.len()
        invariant
            p <= h@.len(),
            actions_view(r@) == flat_actions(history_view(h@.take(p as int))),
        decreases h@.len() - p,
    {
        let ghost base = actions_view(r@);
        let ghost hp = history_view(h@)[p as int];
        proof {
            assert(history_view(h@.take(p + 1)).drop_last() =~= history_view(h@.take(p as int)));
            assert(history_view(h@.take(p + 1)).last() == hp);
        }
        let name = h[p].0.clone();
        let es = &h[p].1;
        assert(hp.0 == name@ && hp.1 == entries_view(es@));
        let mut i: usize = 0;
        while i < es.len()
            invariant
                i <= es@.len(),
                name@ == hp.0,
                actions_view(r@) == base + entries_view(es@).take(i as int).map_values(|e: SpellRecord| (hp.0, e)),
            decreases es@.len() - i,
        {
            let ghost before = actions_view(r@);
            r.push((name.clone(), es[i].duplicate()));
            proof {
                assert(entries_view(es@).take(i + 1).map_values(|e: SpellRecord| (hp.0, e)) =~= entries_view(es@).take(i as int).map_values(|e: SpellRecord| (hp.0, e)).push((hp.0, es@[i as int]@)));
                assert(actions_view(r@) =~= before.push((hp.0, es@[i as int]@)));
            }
            i = i + 1;
        }
        proof {
            assert(entries_view(es@).take(es@.len() as int) =~= entries_view(es@));
        }
        p = p + 1;
    }
    assert(h@.take(h@.len() as int) =~= h@);
    r
}

/// In the order of the live panel (by turn, then in listing order), the
/// action at `i` comes after the action at `j`.
pub open spec fn comes_after(a: Seq<(Seq<char>, SpellRecord)>, i: int, j: int) -> bool {
    a[i].1.turn > a[j].1.turn || (a[i].1.turn == a[j].1.turn && i > j)
}

proof fn lemma_comes_after_trans(a: Seq<(Seq<char>, SpellRecord)>, i: int, j: int, k: int)
    requires
        comes_after(a, i, j),
        comes_after(a, j, k),
    ensures
        comes_after(a, i, k),
{
}

/// The positions of the latest action and of the one before it, in the
/// order of the live panel.
pub fn latest_two(a: &Vec<(String, SpellEntry)>) -> (r: (Option<usize>, Option<usize>))
    ensures
        a@.len() == 0 <==> r.0 is None,
        a@.len() <= 1 <==> r.1 is None,
        r.0 matches Some(l) ==> l < a@.len() && forall|j: int|
            0 <= j < a@.len() && j != l ==> comes_after(actions_view(a@), l as int, j),
        r.1 matches Some(p) ==> p < a@.len() && r.0 is Some && p != r.0->0 && forall|j: int|
            0 <= j < a@.len() && j != p && j != r.0->0 ==> comes_after(actions_view(a@), p as int, j),
{
    let ghost av = actions_view(a@);
    let n = a.len();
    if n == 0 {
        return (None, None);
    }
    let mut l: usize = 0;
    let mut i: usize = 1;
    while i < n
        invariant
            n == a@.len(),
            av == actions_view(a@),
            1 <= i <= n,
            l < i,
            forall|j: int| 0 <= j < i && j != l ==> comes_after(av, l as int, j),
        decreases n - i,
    {
        assert(av[i as int].1.turn == a@[i as int].1.turn);
        assert(av[l as int].1.turn == a@[l as int].1.turn);
        let ghost old_l = l as int;
        if a[i].1.turn >= a[l].1.turn {
            l = i;
            proof {
                assert forall|j: int| 0 <= j < i + 1 && j != l implies comes_after(av, l as int, j) by {
                    if j != old_l {
                        lemma_comes_after_trans(av, l as int, old_l, j);
                    }
                }
            }
        }
        i = i + 1;
    }
    if n == 1 {
        return (Some(l), None);
    }
    let mut p: usize = if l == 0 { 1 } else { 0 };
    let mut k: usize = 0;
    while k < n
        invariant
            n == a@.len(),
            n >= 2,
            av == actions_view(a@),
            l < n,
            p < n,
            p != l,
            k <= n,
            forall|j: int| 0 <= j < k && j != p && j != l ==> comes_after(av, p as int, j),
            (p as int) < (k as int) || p == (if l == 0 { 1usize } else { 0usize }),
        decreases n - k,
    {
        assert(av[k as int].1.turn == a@[k as int].1.turn);
        assert(av[p as int].1.turn == a@[p as int].1.turn);
        let ghost old_p = p as int;
        if k != l && k != p && (a[k].1.turn > a[p].1.turn || (a[k].1.turn == a[p].1.turn && k > p)) {
            p = k;
            proof {
                assert forall|j: int| 0 <= j < k + 1 && j != p && j != l implies comes_after(av, p as int, j) by {
                    if j != old_p {
                        lemma_comes_after_trans(av, p as int, old_p, j);
                    }
                }
            }
        }
        k = k + 1;
    }
    (Some(l), Some(p))
}

} // verus!
