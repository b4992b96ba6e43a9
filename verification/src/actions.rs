//! What the damage meter does with each recognised event: knock-outs,
//! revivals, turn reports and hits, and the buffer that keeps an event seen
//! by two game clients from counting twice.

use vstd::prelude::*;
use crate::degats_directs::{appliquer_degat_direct, direct_damage};
use crate::degats_indirects::{appliquer_degat_indirect, indirect_damage};
use crate::degats_invocations::{appliquer_degat_invocation, summon_damage};
use crate::keyed::{add_name, find_key, find_name, has_key, keys_unique, lemma_key_index, remove_key, remove_name, lemma_remove_key_unique};
use crate::ledger::{mark_name, wrapping_add_i32};
use crate::model::{AppState, BufferEntry, BufferRecord, CombatView, buffer_view, names_view, opt_text};
use crate::text::{decimal, decimal_text, text_eq};

verus! {

/// `a - b` as an optimised build computes it on `i32`.
pub open spec fn wrapping_sub_i32(a: i32, b: i32) -> i32 {
    vstd::wrapping::i32_specs::wrapping_sub(a, b)
}

/// How many turn reports close a turn: one per player still standing, and
/// at least one.
pub open spec fn expected_reports(players_to_include: i32, ko_count: nat) -> i32 {
    let d = wrapping_sub_i32(players_to_include, ko_count as i32);
    if d < 1 {
        1
    } else {
        d
    }
}

/// The state after a hit event: a direct hit for `DMG`, an indirect one for
/// `INDIRECT`, a summon's hit for `SUMMON`, each with its default spell name
/// when none is given; any other kind changes nothing.
pub open spec fn record_damage(
    m: CombatView,
    action_type: Seq<char>,
    source: Seq<char>,
    spell_name: Option<Seq<char>>,
    value: i32,
) -> CombatView {
    if action_type == "DMG"@ {
        direct_damage(m, source, spell_name.unwrap_or("Sort Direct"@), value)
    } else if action_type == "INDIRECT"@ {
        indirect_damage(m, source, spell_name.unwrap_or("Sort Indirect"@), value)
    } else if action_type == "SUMMON"@ {
        summon_damage(m, source, spell_name.unwrap_or("Attaque d'invocation"@), value)
    } else {
        m
    }
}

/// The state after an event has been accepted: `KO` marks the player as
/// knocked out, `REVIVE` takes the mark off, `TURN` counts a turn report and
/// opens the next turn once every standing player has reported, and the rest
/// goes to `record_damage`.
pub open spec fn final_stats(
    m: CombatView,
    source: Seq<char>,
    value: i32,
    action_type: Seq<char>,
    spell_name: Option<Seq<char>>,
) -> CombatView {
    if action_type == "KO"@ {
        CombatView { ko_players: add_name(m.ko_players, source), ..m }
    } else if action_type == "REVIVE"@ {
        CombatView { ko_players: remove_name(m.ko_players, source), ..m }
    } else if action_type == "TURN"@ {
        let seen = wrapping_add_i32(m.tour_reports_seen, 1);
        if seen >= expected_reports(m.players_to_include, m.ko_players.len()) {
            CombatView {
                current_turn: wrapping_add_i32(m.current_turn, 1),
                tour_reports_seen: 0,
                current_caster: None,
                current_spell: None,
                ..m
            }
        } else {
            CombatView { tour_reports_seen: seen, ..m }
        }
    } else {
        record_damage(m, action_type, source, spell_name, value)
    }
}

/// Name for the text that `format!("{:?}", ..)` makes of an optional spell
/// name.
pub uninterp spec fn spell_debug_of(spell_name: Option<Seq<char>>) -> Seq<char>;

/// The text that identifies an event, as `format!("{}_{}_{}_{:?}", ..)` makes
/// it: its kind, its source and its value in decimal, each followed by `_`,
/// then its optional spell name as `{:?}` prints it.
pub open spec fn event_key_of(
    action_type: Seq<char>,
    source: Seq<char>,
    value: i32,
    spell_name: Option<Seq<char>>,
) -> Seq<char> {
    action_type + "_"@ + source + "_"@ + decimal(value as int) + "_"@ + spell_debug_of(spell_name)
}

/// Calls `format!("{:?}", ..)` on an optional spell name. Claims only that
/// the text is determined by the spell name, through `spell_debug_of`.
#[verifier::external_body]
fn spell_debug(spell_name: &Option<String>) -> (r: String)
    ensures
        r@ == spell_debug_of(opt_text(*spell_name)),
{
    format!("{:?}", spell_name)
}

/// The text that identifies an event.
fn event_key(action_type: &String, source: &String, value: i32, spell_name: &Option<String>) -> (r: String)
    ensures
        r@ == event_key_of(action_type@, source@, value, opt_text(*spell_name)),
{
    let mut k = action_type.clone();
    k.append("_");
    k.append(source.as_str());
    k.append("_");
    let digits = decimal_text(value);
    k.append(digits.as_str());
    k.append("_");
    let shown = spell_debug(spell_name);
    k.append(shown.as_str());
    k
}

/// The state after an event identified by `key` arrives at time `now`. In
/// multi-account mode an event that is waiting in the buffer is its twin
/// from the other client: it is taken out and not counted again; a new event
/// waits in the buffer and counts. In any other mode every event counts.
pub open spec fn keyed_action(
    m: CombatView,
    key: Seq<char>,
    source: Seq<char>,
    value: i32,
    action_type: Seq<char>,
    spell_name: Option<Seq<char>>,
    now: u64,
) -> CombatView {
    if m.mode != "multi"@ {
        final_stats(m, source, value, action_type, spell_name)
    } else if has_key(m.multi_buffer, key) {
        CombatView { multi_buffer: remove_key(m.multi_buffer, key), ..m }
    } else {
        final_stats(
            CombatView {
                multi_buffer: m.multi_buffer.push(
                    (key, BufferRecord { time: Some(now), source, value, action_type, spell_name }),
                ),
                ..m
            },
            source,
            value,
            action_type,
            spell_name,
        )
    }
}

pub proof fn lemma_push_new_key_unique<V>(s: Seq<(Seq<char>, V)>, k: Seq<char>, v: V)
    requires
        keys_unique(s),
        !has_key(s, k),
    ensures
        keys_unique(s.push((k, v))),
{
    let t = s.push((k, v));
    assert forall|a: int, b: int| 0 <= a < t.len() && 0 <= b < t.len() && a != b implies #[trigger] t[a].0 != #[trigger] t[b].0 by {
        if a == s.len() as int {
            assert(s[b].0 != k);
        } else if b == s.len() as int {
            assert(s[a].0 != k);
        } else {
            assert(t[a] == s[a] && t[b] == s[b]);
        }
    }
}

impl AppState {
    /// Sends a hit to the direct, indirect or summon ledger, by its kind.
    pub fn enregistrer_degat(&mut self, action_type: &str, source: String, spell_name: Option<String>, value: i32)
        requires
            old(self)@.well_formed(),
        ensures
            final(self)@ == record_damage(old(self)@, action_type@, source@, opt_text(spell_name), value),
            final(self)@.well_formed(),
    {
        if text_eq(action_type, "DMG") {
            let s_name = match spell_name {
                Some(n) => n,
                None => "Sort Direct".to_owned(),
            };
            appliquer_degat_direct(self, source, s_name, value);
        } else if text_eq(action_type, "INDIRECT") {
            let s_name = match spell_name {
                Some(n) => n,
                None => "Sort Indirect".to_owned(),
            };
            appliquer_degat_indirect(self, source, s_name, value);
        } else if text_eq(action_type, "SUMMON") {
            let s_name = match spell_name {
                Some(n) => n,
                None => "Attaque d'invocation".to_owned(),
            };
            appliquer_degat_invocation(self, source, s_name, value);
        }
    }

    /// Applies an accepted event to the combat state.
    pub fn apply_final_stats(&mut self, source: String, value: i32, action_type: String, spell_name: Option<String>)
        requires
            old(self)@.well_formed(),
        ensures
            final(self)@ == final_stats(old(self)@, source@, value, action_type@, opt_text(spell_name)),
            final(self)@.well_formed(),
    {
        if text_eq(action_type.as_str(), "KO") {
            mark_name(&mut self.ko_players, &source);
            assert(self@ =~= final_stats(old(self)@, source@, value, action_type@, opt_text(spell_name)));
            return;
        }
        if text_eq(action_type.as_str(), "REVIVE") {
            let ghost before = names_view(self.ko_players@);
            match find_name(&self.ko_players, source.as_str()) {
                Some(i) => {
                    proof {
                        assert(before[i as int] == source@);
                        assert(before.contains(source@));
                        let c = choose|j: int| 0 <= j < before.len() && before[j] == source@;
                        assert(c == i as int) by {
                            if c != i as int {
                                assert(before[c] == before[i as int]);
                            }
                        }
                    }
                    self.ko_players.remove(i);
                    assert(names_view(self.ko_players@) =~= before.remove(i as int));
                    assert(names_view(self.ko_players@).no_duplicates()) by {
                        let r = before.remove(i as int);
                        assert forall|a: int, b: int| 0 <= a < r.len() && 0 <= b < r.len() && a != b implies r[a] != r[b] by {
                            let a1 = if a < i { a } else { a + 1 };
                            let b1 = if b < i { b } else { b + 1 };
                            assert(r[a] == before[a1]);
                            assert(r[b] == before[b1]);
                        }
                    }
                },
                None => {
                    assert(!before.contains(source@)) by {
                        if before.contains(source@) {
                            let j = choose|j: int| 0 <= j < before.len() && before[j] == source@;
                            assert(self.ko_players@[j]@ != source@);
                        }
                    }
                },
            }
            assert(self@ =~= final_stats(old(self)@, source@, value, action_type@, opt_text(spell_name)));
            return;
        }
        if text_eq(action_type.as_str(), "TURN") {
            self.tour_reports_seen = self.tour_reports_seen.wrapping_add(1);
            let d = self.players_to_include.wrapping_sub(self.ko_players.len() as i32);
            let expected = if d < 1 { 1 } else { d };
            if self.tour_reports_seen >= expected {
                self.current_turn = self.current_turn.wrapping_add(1);
                self.tour_reports_seen = 0;
                self.current_caster = None;
                self.current_spell = None;
            }
            assert(self@ =~= final_stats(old(self)@, source@, value, action_type@, opt_text(spell_name)));
            return;
        }
        self.enregistrer_degat(action_type.as_str(), source, spell_name, value);
    }

    /// Handles an event whose identifying text `event_key` is already made.
    pub fn process_keyed_action(
        &mut self,
        event_key: String,
        source: String,
        value: i32,
        action_type: String,
        spell_name: Option<String>,
        now: u64,
    )
        requires
            old(self)@.well_formed(),
        ensures
            final(self)@ == keyed_action(old(self)@, event_key@, source@, value, action_type@, opt_text(spell_name), now),
            final(self)@.well_formed(),
    {
        if !text_eq(self.mode.as_str(), "multi") {
            self.apply_final_stats(source, value, action_type, spell_name);
            return;
        }
        let ghost before = buffer_view(self.multi_buffer@);
        match find_key(&self.multi_buffer, event_key.as_str()) {
            Some(i) => {
                proof {
                    assert(before[i as int].0 == event_key@);
                    lemma_key_index(before, event_key@, i as int);
                    lemma_remove_key_unique(before, event_key@);
                }
                self.multi_buffer.remove(i);
                assert(buffer_view(self.multi_buffer@) =~= remove_key(before, event_key@));
                assert(self@ =~= keyed_action(old(self)@, event_key@, source@, value, action_type@, opt_text(spell_name), now));
            },
            None => {
                proof {
                    assert(!has_key(before, event_key@)) by {
                        if has_key(before, event_key@) {
                            let j = choose|j: int| 0 <= j < before.len() && #[trigger] before[j].0 == event_key@;
                            assert(self.multi_buffer@[j].0@ != event_key@);
                        }
                    }
                }
                let entry = BufferEntry {
                    time: Some(now),
                    source: source.clone(),
                    value,
                    action_type: action_type.clone(),
                    spell_name: spell_name.clone(),
                };
                self.multi_buffer.push((event_key, entry));
                proof {
                    lemma_push_new_key_unique(before, event_key@, entry@);
                    assert(buffer_view(self.multi_buffer@) =~= before.push((event_key@, entry@)));
                }
                self.apply_final_stats(source, value, action_type, spell_name);
            },
        }
    }

    /// Handles an event reported at time `now` (nanoseconds on a clock that
    /// never goes back): in multi-account mode the second report of the same
    /// event is the other client's and does not count again.
    pub fn process_action(&mut self, source: String, value: i32, action_type: String, spell_name: Option<String>, now: u64)
        requires
            old(self)@.well_formed(),
        ensures
            final(self)@ == keyed_action(
                old(self)@,
                event_key_of(action_type@, source@, value, opt_text(spell_name)),
                source@,
                value,
                action_type@,
                opt_text(spell_name),
                now,
            ),
            final(self)@.well_formed(),
    {
        if !text_eq(self.mode.as_str(), "multi") {
            self.apply_final_stats(source, value, action_type, spell_name);
            return;
        }
        let key = event_key(&action_type, &source, value, &spell_name);
        self.process_keyed_action(key, source, value, action_type, spell_name, now);
    }
}


/// How long a buffered event waits for its twin, in nanoseconds.
pub const BUFFER_WINDOW_NS: u64 = 1500000000;

/// A buffered event is still waiting at time `now`: it has no time, or less
/// than the waiting window has passed since it arrived (a time after `now`
/// counts as no time passed).
pub open spec fn still_waiting(e: BufferRecord, now: u64) -> bool {
    match e.time {
        None => true,
        Some(t) => (if now >= t { now - t } else { 0 }) < BUFFER_WINDOW_NS,
    }
}

/// The buffered events still waiting at `now`, in their order.
pub open spec fn keep_waiting(s: Seq<(Seq<char>, BufferRecord)>, now: u64) -> Seq<(Seq<char>, BufferRecord)>
    decreases s.len(),
{
    if s.len() == 0 {
        s
    } else {
        (if still_waiting(s[0].1, now) {
            seq![s[0]]
        } else {
            Seq::empty()
        }) + keep_waiting(s.skip(1), now)
    }
}

/// The sum of the hits, as an optimised build adds them up on `i32`.
pub open spec fn wrapping_sum(hits: Seq<i32>) -> i32
    decreases hits.len(),
{
    if hits.len() == 0 {
        0
    } else {
        wrapping_add_i32(wrapping_sum(hits.drop_last()), hits.last())
    }
}

/// The state once the spell being cast has been written to the history:
/// when there is a caster and hits, and the caster is followed (or nobody
/// is), the caster's entries get one more entry with those hits; in any case
/// the hits and the spell are then forgotten.
pub open spec fn pushed_spell(m: CombatView, followed: Seq<Seq<char>>) -> CombatView {
    let m2 = match m.current_caster {
        Some(c) => if m.current_hits.len() > 0 && (followed.len() == 0 || followed.contains(c)) {
            CombatView {
                history: crate::keyed::set_value(
                    m.history,
                    c,
                    crate::ledger::entries_of(m.history, c).push(
                        crate::model::SpellRecord {
                            spell: m.current_spell.unwrap_or("Sort Direct"@),
                            hits: m.current_hits,
                            total: wrapping_sum(m.current_hits),
                            turn: m.current_turn,
                            is_indirect: false,
                        },
                    ),
                ),
                ..m
            }
        } else {
            m
        },
        None => m,
    };
    CombatView { current_hits: Seq::empty(), current_spell: None, ..m2 }
}

/// The sum of the hits.
pub fn sum_hits(hits: &Vec<i32>) -> (r: i32)
    ensures
        r == wrapping_sum(hits@),
{
    let mut total: i32 = 0;
    let mut i: usize = 0;
    while i < hits.len()
        invariant
            i <= hits@.len(),
            total == wrapping_sum(hits@.take(i as int)),
        decreases hits@.len() - i,
    {
        assert(hits@.take(i + 1).drop_last() =~= hits@.take(i as int));
        total = total.wrapping_add(hits[i]);
        i = i + 1;
    }
    assert(hits@.take(hits@.len() as int) =~= hits@);
    total
}

pub proof fn lemma_contains_name(list: Seq<String>, name: Seq<char>)
    ensures
        crate::text::names_contain(list, name) == names_view(list).contains(name),
{
    if crate::text::names_contain(list, name) {
        let i = choose|i: int| 0 <= i < list.len() && #[trigger] list[i]@ == name;
        assert(names_view(list)[i] == name);
    }
    if names_view(list).contains(name) {
        let i = choose|i: int| 0 <= i < names_view(list).len() && names_view(list)[i] == name;
        assert(list[i]@ == name);
    }
}

impl AppState {
    /// Drops, in multi-account mode, the buffered events whose twin did not
    /// come within the waiting window before `now`.
    pub fn check_multi_buffer_timeouts(&mut self, now: u64)
        requires
            old(self)@.well_formed(),
        ensures
            final(self)@ == (if old(self)@.mode != "multi"@ {
                old(self)@
            } else {
                CombatView { multi_buffer: keep_waiting(old(self)@.multi_buffer, now), ..old(self)@ }
            }),
            final(self)@.well_formed(),
    {
        if !text_eq(self.mode.as_str(), "multi") {
            return;
        }
        let ghost orig = buffer_view(self.multi_buffer@);
        let mut rest: Vec<(String, BufferEntry)> = Vec::new();
        std::mem::swap(&mut rest, &mut self.multi_buffer);
        let mut kept: Vec<(String, BufferEntry)> = Vec::new();
        assert(buffer_view(kept@) + buffer_view(rest@) =~= orig);
        while rest.len() > 0
            invariant
                keep_waiting(orig, now) == buffer_view(kept@) + keep_waiting(buffer_view(rest@), now),
                keys_unique(buffer_view(kept@) + buffer_view(rest@)),
                forall|a: int, b: int|
                    0 <= a < kept@.len() && 0 <= b < rest@.len() ==> buffer_view(kept@)[a].0 != buffer_view(rest@)[b].0,
            decreases rest@.len(),
        {
            let ghost rv = buffer_view(rest@);
            let ghost kv = buffer_view(kept@);
            let e = rest.remove(0);
            proof {
                assert(buffer_view(rest@) =~= rv.skip(1));
                assert(rv[0] == (e.0@, e.1@));
            }
            let fresh = match e.1.time {
                None => true,
                Some(t) => {
                    let elapsed = if now >= t { now - t } else { 0 };
                    elapsed < BUFFER_WINDOW_NS
                },
            };
            if fresh {
                kept.push(e);
                proof {
                    assert(buffer_view(kept@) =~= kv.push(rv[0]));
                    assert(buffer_view(kept@) + buffer_view(rest@) =~= kv + rv);
                    assert(kv + seq![rv[0]] + keep_waiting(rv.skip(1), now) =~= kv + (seq![rv[0]] + keep_waiting(rv.skip(1), now)));
                }
            } else {
                proof {
                    let whole = kv + rv;
                    let now_seq = kv + rv.skip(1);
                    assert forall|a: int, b: int| 0 <= a < now_seq.len() && 0 <= b < now_seq.len() && a != b implies #[trigger] now_seq[a].0 != #[trigger] now_seq[b].0 by {
                        let a1 = if a < kv.len() { a } else { a + 1 };
                        let b1 = if b < kv.len() { b } else { b + 1 };
                        assert(now_seq[a] == whole[a1]);
                        assert(now_seq[b] == whole[b1]);
                    }
                    assert(buffer_view(kept@) + buffer_view(rest@) =~= now_seq);
                    assert(kv + (Seq::<(Seq<char>, BufferRecord)>::empty() + keep_waiting(rv.skip(1), now)) =~= kv + keep_waiting(rv.skip(1), now));
                }
            }
            proof {
                assert(forall|a: int, b: int|
                    0 <= a < kept@.len() && 0 <= b < rest@.len() ==> buffer_view(kept@)[a].0 != buffer_view(rest@)[b].0) by {
                    assert forall|a: int, b: int| 0 <= a < kept@.len() && 0 <= b < rest@.len() implies buffer_view(kept@)[a].0 != buffer_view(rest@)[b].0 by {
                        let whole = kv + rv;
                        if a < kv.len() {
                            assert(buffer_view(kept@)[a] == whole[a]);
                        } else {
                            assert(buffer_view(kept@)[a] == whole[kv.len() as int]);
                        }
                        assert(buffer_view(rest@)[b] == whole[kv.len() + b + 1]);
                    }
                }
            }
        }
        proof {
            assert(buffer_view(rest@) =~= Seq::<(Seq<char>, BufferRecord)>::empty());
            assert(buffer_view(kept@) + Seq::<(Seq<char>, BufferRecord)>::empty() =~= buffer_view(kept@));
        }
        self.multi_buffer = kept;
        assert(self@ =~= CombatView { multi_buffer: keep_waiting(old(self)@.multi_buffer, now), ..old(self)@ });
    }

    /// Writes the spell being cast, with its hits, to the caster's history
    /// when the caster is followed, then forgets the hits and the spell.
    pub fn push_current_spell_to_history(&mut self, tracked_players: &[String])
        requires
            old(self)@.well_formed(),
        ensures
            final(self)@ == pushed_spell(old(self)@, names_view(tracked_players@)),
            final(self)@.well_formed(),
    {
        let ghost m = self@;
        match self.current_caster.clone() {
            Some(caster) => {
                if self.current_hits.len() > 0 {
                    let is_followed = tracked_players.len() == 0 || crate::text::contains_name(tracked_players, caster.as_str());
                    proof {
                        lemma_contains_name(tracked_players@, caster@);
                    }
                    if is_followed {
                        let total = sum_hits(&self.current_hits);
                        let spell_name = match self.current_spell.clone() {
                            Some(s) => s,
                            None => "Sort Direct".to_owned(),
                        };
                        let hits = self.current_hits.clone();
                        assert(hits@ =~= self.current_hits@);
                        let entry = crate::model::SpellEntry {
                            spell: spell_name,
                            hits,
                            total,
                            turn: self.current_turn,
                            is_indirect: false,
                        };
                        push_entry_for(&mut self.history, &caster, entry);
                    }
                }
            },
            None => {},
        }
        self.current_hits.clear();
        self.current_spell = None;
        assert(self@ =~= pushed_spell(m, names_view(tracked_players@)));
    }
}

/// Appends an entry to the entries of `who`.
pub fn push_entry_for(h: &mut Vec<(String, Vec<crate::model::SpellEntry>)>, who: &String, e: crate::model::SpellEntry)
    requires
        keys_unique(crate::model::history_view(old(h)@)),
    ensures
        crate::model::history_view(final(h)@) == crate::keyed::set_value(
            crate::model::history_view(old(h)@),
            who@,
            crate::ledger::entries_of(crate::model::history_view(old(h)@), who@).push(e@),
        ),
        keys_unique(crate::model::history_view(final(h)@)),
{
    let ghost before = crate::model::history_view(h@);
    let ghost after_es = crate::ledger::entries_of(before, who@).push(e@);
    match find_key(h, who.as_str()) {
        Some(i) => {
            proof {
                assert(before[i as int].0 == who@);
                lemma_key_index(before, who@, i as int);
            }
            let ghost old_es = h@[i as int].1@;
            let ghost ev = e@;
            h[i].1.push(e);
            assert(crate::model::entries_view(h@[i as int].1@) =~= crate::model::entries_view(old_es).push(ev));
            assert(crate::model::history_view(h@) =~= crate::keyed::set_value(before, who@, after_es));
        },
        None => {
            proof {
                assert(!has_key(before, who@)) by {
                    if has_key(before, who@) {
                        let j = choose|j: int| 0 <= j < before.len() && #[trigger] before[j].0 == who@;
                        assert(h@[j].0@ != who@);
                    }
                }
            }
            let ghost ev = e@;
            let mut es: Vec<crate::model::SpellEntry> = Vec::new();
            es.push(e);
            assert(crate::model::entries_view(es@) =~= Seq::<crate::model::SpellRecord>::empty().push(ev));
            h.push((who.clone(), es));
            assert(crate::model::history_view(h@) =~= crate::keyed::set_value(before, who@, after_es));
        },
    }
    proof {
        crate::keyed::lemma_set_value_unique(before, who@, after_es);
    }
}

} // verus!
