//! How one hit enters the damage ledger: the player's running total, the
//! set of players shown, and the player's spell entries.

use vstd::prelude::*;
use crate::keyed::{find_key, find_name, has_key, keys_unique, lemma_key_index, set_value, value_or, add_name};
use crate::model::{SpellEntry, SpellRecord, entries_view, history_view, names_view, totals_view};

verus! {

/// `a + b` as an optimised build computes it on `i32`.
pub open spec fn wrapping_add_i32(a: i32, b: i32) -> i32 {
    vstd::wrapping::i32_specs::wrapping_add(a, b)
}

/// The totals with `v` added to the total of `who` (a missing total counts as 0).
pub open spec fn add_damage(t: Seq<(Seq<char>, i32)>, who: Seq<char>, v: i32) -> Seq<(Seq<char>, i32)> {
    set_value(t, who, wrapping_add_i32(value_or(t, who, 0i32), v))
}

/// A fresh entry holding one hit.
pub open spec fn single_hit(spell: Seq<char>, turn: i32, v: i32, indirect: bool) -> SpellRecord {
    SpellRecord { spell, hits: seq![v], total: v, turn, is_indirect: indirect }
}

/// An entry with one more hit.
pub open spec fn with_hit(e: SpellRecord, v: i32) -> SpellRecord {
    SpellRecord { hits: e.hits.push(v), total: wrapping_add_i32(e.total, v), ..e }
}

/// A hit joins the last entry when that entry is for the same spell, in the
/// same turn and of the same kind (direct or indirect); otherwise it opens a
/// new entry.
pub open spec fn record_hit(es: Seq<SpellRecord>, spell: Seq<char>, turn: i32, v: i32, indirect: bool) -> Seq<SpellRecord> {
    if es.len() > 0 && es.last().spell == spell && es.last().turn == turn && es.last().is_indirect == indirect {
        es.update(es.len() - 1, with_hit(es.last(), v))
    } else {
        es.push(single_hit(spell, turn, v, indirect))
    }
}

/// Position of the first entry at or after `i` for `spell` in `turn`, or -1.
pub open spec fn find_entry(es: Seq<SpellRecord>, spell: Seq<char>, turn: i32, i: nat) -> int
    decreases es.len() - i,
{
    if i >= es.len() {
        -1
    } else if es[i as int].spell == spell && es[i as int].turn == turn {
        i as int
    } else {
        find_entry(es, spell, turn, i + 1)
    }
}

/// A summon's hit joins the first entry for the same spell in the same turn,
/// wherever it stands; otherwise it opens a new direct entry.
pub open spec fn record_summon_hit(es: Seq<SpellRecord>, spell: Seq<char>, turn: i32, v: i32) -> Seq<SpellRecord> {
    let k = find_entry(es, spell, turn, 0);
    if k >= 0 {
        es.update(k, with_hit(es[k], v))
    } else {
        es.push(single_hit(spell, turn, v, false))
    }
}

/// Adds `v` to the total of `who`.
pub fn add_to_total(t: &mut Vec<(String, i32)>, who: &String, v: i32)
    requires
        keys_unique(totals_view(old(t)@)),
    ensures
        totals_view(final(t)@) == add_damage(totals_view(old(t)@), who@, v),
        keys_unique(totals_view(final(t)@)),
{
    let ghost before = totals_view(t@);
    match find_key(t, who.as_str()) {
        Some(i) => {
            proof {
                assert(before[i as int].0 == who@);
                lemma_key_index(before, who@, i as int);
            }
            let cur = t[i].1;
            t[i].1 = cur.wrapping_add(v);
            assert(totals_view(t@) =~= add_damage(before, who@, v));
        },
        None => {
            proof {
                assert(!has_key(before, who@)) by {
                    if has_key(before, who@) {
                        let j = choose|j: int| 0 <= j < before.len() && #[trigger] before[j].0 == who@;
                        assert(t@[j].0@ != who@);
                    }
                }
            }
            t.push((who.clone(), v));
            assert(totals_view(t@) =~= add_damage(before, who@, v));
        },
    }
    proof {
        crate::keyed::lemma_set_value_unique(before, who@, wrapping_add_i32(value_or(before, who@, 0i32), v));
    }
}

/// Adds `who` to a set of names.
pub fn mark_name(v: &mut Vec<String>, who: &String)
    requires
        names_view(old(v)@).no_duplicates(),
    ensures
        names_view(final(v)@) == add_name(names_view(old(v)@), who@),
        names_view(final(v)@).no_duplicates(),
{
    let ghost before = names_view(v@);
    match find_name(v, who.as_str()) {
        Some(i) => {
            assert(before[i as int] == who@);
            assert(before.contains(who@));
        },
        None => {
            assert(!before.contains(who@)) by {
                if before.contains(who@) {
                    let j = choose|j: int| 0 <= j < before.len() && before[j] == who@;
                    assert(v@[j]@ != who@);
                }
            }
            v.push(who.clone());
            assert(names_view(v@) =~= before.push(who@));
        },
    }
}

/// Records a hit in one player's entries.
pub fn record_hit_in(es: &mut Vec<SpellEntry>, spell: String, turn: i32, v: i32, indirect: bool)
    ensures
        entries_view(final(es)@) == record_hit(entries_view(old(es)@), spell@, turn, v, indirect),
{
    let ghost before = entries_view(es@);
    let n = es.len();
    if n > 0 && es[n - 1].spell == spell && es[n - 1].turn == turn && es[n - 1].is_indirect == indirect {
        es[n - 1].hits.push(v);
        let cur = es[n - 1].total;
        es[n - 1].total = cur.wrapping_add(v);
        assert(entries_view(es@) =~= record_hit(before, spell@, turn, v, indirect));
    } else {
        let mut hits: Vec<i32> = Vec::new();
        hits.push(v);
        assert(hits@ =~= seq![v]);
        es.push(SpellEntry { spell, hits, total: v, turn, is_indirect: indirect });
        assert(entries_view(es@) =~= record_hit(before, spell@, turn, v, indirect));
    }
}

/// Records a summon's hit in one player's entries.
pub fn record_summon_hit_in(es: &mut Vec<SpellEntry>, spell: String, turn: i32, v: i32)
    ensures
        entries_view(final(es)@) == record_summon_hit(entries_view(old(es)@), spell@, turn, v),
{
    let ghost before = entries_view(es@);
    let n = es.len();
    let mut i: usize = 0;
    while i < n
        invariant
            n == es@.len(),
            before == entries_view(es@),
            before == entries_view(old(es)@),
            i <= n,
            find_entry(before, spell@, turn, 0) == find_entry(before, spell@, turn, i as nat),
        decreases n - i,
    {
        if es[i].spell == spell && es[i].turn == turn {
            es[i].hits.push(v);
            let cur = es[i].total;
            es[i].total = cur.wrapping_add(v);
            assert(entries_view(es@) =~= record_summon_hit(before, spell@, turn, v));
            return;
        }
        i = i + 1;
    }
    let mut hits: Vec<i32> = Vec::new();
    hits.push(v);
    assert(hits@ =~= seq![v]);
    es.push(SpellEntry { spell, hits, total: v, turn, is_indirect: false });
    assert(entries_view(es@) =~= record_summon_hit(before, spell@, turn, v));
}

/// The entries of a player in a history (none for a missing player).
pub open spec fn entries_of(h: Seq<(Seq<char>, Seq<SpellRecord>)>, who: Seq<char>) -> Seq<SpellRecord> {
    value_or(h, who, Seq::<SpellRecord>::empty())
}

/// Records a hit (direct when `summon` is false and `indirect` tells the kind;
/// a summon's hit otherwise) in the history of `who`.
pub fn record_for_player(
    h: &mut Vec<(String, Vec<SpellEntry>)>,
    who: &String,
    spell: String,
    turn: i32,
    v: i32,
    indirect: bool,
    summon: bool,
)
    requires
        keys_unique(history_view(old(h)@)),
    ensures
        history_view(final(h)@) == set_value(
            history_view(old(h)@),
            who@,
            if summon {
                record_summon_hit(entries_of(history_view(old(h)@), who@), spell@, turn, v)
            } else {
                record_hit(entries_of(history_view(old(h)@), who@), spell@, turn, v, indirect)
            },
        ),
        keys_unique(history_view(final(h)@)),
{
    let ghost before = history_view(h@);
    let ghost after_es = if summon {
        record_summon_hit(entries_of(before, who@), spell@, turn, v)
    } else {
        record_hit(entries_of(before, who@), spell@, turn, v, indirect)
    };
    match find_key(h, who.as_str()) {
        Some(i) => {
            proof {
                assert(before[i as int].0 == who@);
                lemma_key_index(before, who@, i as int);
            }
            if summon {
                record_summon_hit_in(&mut h[i].1, spell, turn, v);
            } else {
                record_hit_in(&mut h[i].1, spell, turn, v, indirect);
            }
            assert(history_view(h@) =~= set_value(before, who@, after_es));
        },
        None => {
            proof {
                assert(!has_key(before, who@)) by {
                    if has_key(before, who@) {
                        let j = choose|j: int| 0 <= j < before.len() && #[trigger] before[j].0 == who@;
                        assert(h@[j].0@ != who@);
                    }
                }
            }
            let mut es: Vec<SpellEntry> = Vec::new();
            assert(entries_view(es@) =~= Seq::<SpellRecord>::empty());
            if summon {
                record_summon_hit_in(&mut es, spell, turn, v);
            } else {
                record_hit_in(&mut es, spell, turn, v, indirect);
            }
            h.push((who.clone(), es));
            assert(history_view(h@) =~= set_value(before, who@, after_es));
        },
    }
    proof {
        crate::keyed::lemma_set_value_unique(before, who@, after_es);
    }
}

} // verus!
