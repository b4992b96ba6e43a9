//! What holds of the damage meter across its operations: an event seen by
//! both game clients counts once, a late twin counts again, a knock-out is
//! undone by a revival, a turn closes after one report per standing player,
//! an effect keeps its first author, and a saved or reset combat is gone.

use vstd::prelude::*;
use crate::actions::{event_key_of, spell_debug_of, pushed_spell, record_damage, wrapping_sum, BUFFER_WINDOW_NS, expected_reports, final_stats, keep_waiting, keyed_action, still_waiting};
use crate::archiving::{archived, reset_config};
use crate::controls::{count_offered, follow_added, mono_selected, multi_selected, offered_counts};
use crate::degats_indirects::register_origin;
use crate::degats_invocations::summon_spell_name;
use crate::keyed::{add_name, has_key, key_index, keys_unique, lemma_key_index, lemma_set_value_unique, remove_key, remove_name, set_value, value_or};
use crate::ledger::{add_damage, entries_of, find_entry, record_hit, record_summon_hit, single_hit, with_hit, wrapping_add_i32};
use crate::model::{BufferRecord, CombatView, ConfigRecord, SpellRecord, initial_state};
use crate::combat_log::{
    MatchesView, acted, ko_effect, state_apply_effect, trimmed_group, damage_amount, damage_effect, first_origin_from, line_effect, state_ref, summon_owner,
};
use crate::parser::group;
use crate::recap::{has_block, is_turn_breakdown, line_of, lines_total, recap_rows, spell_totals, turn_lines};
use crate::stats::{label_totals, stats_label};
use crate::text::{contains_text, decimal, digits_of, first_segment, lowercase_of, trim};

verus! {

/// Taking a fresh entry out again gives back the list it was added to.
proof fn lemma_remove_pushed<V>(b: Seq<(Seq<char>, V)>, k: Seq<char>, v: V)
    requires
        !has_key(b, k),
    ensures
        has_key(b.push((k, v)), k),
        remove_key(b.push((k, v)), k) == b,
{
    let s = b.push((k, v));
    assert(s[b.len() as int].0 == k);
    let i = crate::keyed::key_index(s, k);
    assert(i == b.len() as int) by {
        if i != b.len() as int {
            assert(s[i] == b[i]);
        }
    }
    assert(s.remove(i) =~= b);
}

/// Accepting an event neither reads nor changes the buffer of waiting
/// events, nor the mode.
proof fn lemma_final_stats_buffer(
    m: CombatView,
    b: Seq<(Seq<char>, BufferRecord)>,
    source: Seq<char>,
    value: i32,
    action_type: Seq<char>,
    spell_name: Option<Seq<char>>,
)
    ensures
        final_stats(m, source, value, action_type, spell_name).multi_buffer == m.multi_buffer,
        final_stats(m, source, value, action_type, spell_name).mode == m.mode,
        final_stats(CombatView { multi_buffer: b, ..m }, source, value, action_type, spell_name)
            == (CombatView { multi_buffer: b, ..final_stats(m, source, value, action_type, spell_name) }),
{
    assert(final_stats(CombatView { multi_buffer: b, ..m }, source, value, action_type, spell_name)
        =~= (CombatView { multi_buffer: b, ..final_stats(m, source, value, action_type, spell_name) }));
}

/// In multi-account mode, an event reported by both clients counts once:
/// the first report counts and waits in the buffer, the second takes it out
/// and counts nothing, and the state is then as if the event had been
/// reported once by a single client.
pub proof fn law_twin_report_counts_once(
    m: CombatView,
    key: Seq<char>,
    source: Seq<char>,
    value: i32,
    action_type: Seq<char>,
    spell_name: Option<Seq<char>>,
    first: u64,
    second: u64,
)
    requires
        m.well_formed(),
        m.mode == "multi"@,
        !has_key(m.multi_buffer, key),
    ensures
        keyed_action(
            keyed_action(m, key, source, value, action_type, spell_name, first),
            key,
            source,
            value,
            action_type,
            spell_name,
            second,
        ) == final_stats(m, source, value, action_type, spell_name),
{
    let rec = BufferRecord { time: Some(first), source, value, action_type, spell_name };
    let b = m.multi_buffer.push((key, rec));
    lemma_final_stats_buffer(m, b, source, value, action_type, spell_name);
    lemma_remove_pushed(m.multi_buffer, key, rec);
    let m1 = keyed_action(m, key, source, value, action_type, spell_name, first);
    assert(m1 == (CombatView { multi_buffer: b, ..final_stats(m, source, value, action_type, spell_name) }));
    assert(CombatView { multi_buffer: remove_key(m1.multi_buffer, key), ..m1 }
        =~= final_stats(m, source, value, action_type, spell_name));
}

/// With a single client every report counts, a repeated one too.
pub proof fn law_single_client_counts_every_report(
    m: CombatView,
    key: Seq<char>,
    source: Seq<char>,
    value: i32,
    action_type: Seq<char>,
    spell_name: Option<Seq<char>>,
    first: u64,
    second: u64,
)
    requires
        m.mode != "multi"@,
    ensures
        keyed_action(
            keyed_action(m, key, source, value, action_type, spell_name, first),
            key,
            source,
            value,
            action_type,
            spell_name,
            second,
        ) == final_stats(
            final_stats(m, source, value, action_type, spell_name),
            source,
            value,
            action_type,
            spell_name,
        ),
{
    lemma_final_stats_buffer(m, m.multi_buffer, source, value, action_type, spell_name);
}

/// Dropping the stale events keeps exactly the events still waiting: a kept
/// event was in the list and is still waiting, and a waiting event of the
/// list is kept.
pub proof fn law_timeouts_keep_waiting_events(s: Seq<(Seq<char>, BufferRecord)>, now: u64)
    ensures
        forall|i: int| 0 <= i < keep_waiting(s, now).len() ==> #[trigger] s.contains(keep_waiting(s, now)[i])
            && still_waiting(keep_waiting(s, now)[i].1, now),
        forall|i: int| 0 <= i < s.len() && still_waiting(s[i].1, now) ==> #[trigger] keep_waiting(s, now).contains(s[i]),
    decreases s.len(),
{
    if s.len() > 0 {
        let t = s.skip(1);
        law_timeouts_keep_waiting_events(t, now);
        let head: Seq<(Seq<char>, BufferRecord)> = if still_waiting(s[0].1, now) {
            seq![s[0]]
        } else {
            Seq::empty()
        };
        let k = keep_waiting(s, now);
        assert(k == head + keep_waiting(t, now));
        assert forall|i: int| 0 <= i < k.len() implies #[trigger] s.contains(k[i]) && still_waiting(k[i].1, now) by {
            if i < head.len() {
                assert(k[i] == s[0]);
            } else {
                let x = keep_waiting(t, now)[i - head.len()];
                assert(k[i] == x);
                assert(t.contains(x));
                let j = choose|j: int| 0 <= j < t.len() && t[j] == x;
                assert(s[j + 1] == x);
            }
        }
        assert forall|i: int| 0 <= i < s.len() && still_waiting(s[i].1, now) implies #[trigger] k.contains(s[i]) by {
            if i == 0 {
                assert(k[0] == s[0]);
            } else {
                let kt = keep_waiting(t, now);
                assert(t[i - 1] == s[i]);
                assert(kt.contains(t[i - 1]));
                let j = choose|j: int| 0 <= j < kt.len() && kt[j] == t[i - 1];
                assert(k[j + head.len()] == s[i]);
            }
        }
    }
}

/// Dropping the stale events again at the same time changes nothing.
pub proof fn law_timeouts_idempotent(s: Seq<(Seq<char>, BufferRecord)>, now: u64)
    ensures
        keep_waiting(keep_waiting(s, now), now) == keep_waiting(s, now),
    decreases s.len(),
{
    if s.len() > 0 {
        let t = s.skip(1);
        law_timeouts_idempotent(t, now);
        let k = keep_waiting(s, now);
        if still_waiting(s[0].1, now) {
            assert(k == seq![s[0]] + keep_waiting(t, now));
            assert(k[0] == s[0]);
            assert(k.skip(1) =~= keep_waiting(t, now));
        } else {
            assert(k =~= keep_waiting(t, now));
        }
    }
}

/// In multi-account mode, a twin that comes once the waiting window has
/// passed and the stale events have been dropped is a new event: it counts.
pub proof fn law_late_twin_counts_again(
    m: CombatView,
    key: Seq<char>,
    source: Seq<char>,
    value: i32,
    action_type: Seq<char>,
    spell_name: Option<Seq<char>>,
    first: u64,
    now: u64,
)
    requires
        m.well_formed(),
        m.mode == "multi"@,
        !has_key(m.multi_buffer, key),
        first <= now,
        now - first >= BUFFER_WINDOW_NS,
    ensures
        ({
            let m1 = keyed_action(m, key, source, value, action_type, spell_name, first);
            let m2 = CombatView { multi_buffer: keep_waiting(m1.multi_buffer, now), ..m1 };
            &&& !has_key(m2.multi_buffer, key)
            &&& keyed_action(m2, key, source, value, action_type, spell_name, now) == final_stats(
                CombatView {
                    multi_buffer: m2.multi_buffer.push(
                        (key, BufferRecord { time: Some(now), source, value, action_type, spell_name }),
                    ),
                    ..m2
                },
                source,
                value,
                action_type,
                spell_name,
            )
        }),
{
    let rec = BufferRecord { time: Some(first), source, value, action_type, spell_name };
    let b = m.multi_buffer.push((key, rec));
    lemma_final_stats_buffer(m, b, source, value, action_type, spell_name);
    let m1 = keyed_action(m, key, source, value, action_type, spell_name, first);
    assert(m1.multi_buffer == b);
    let m2 = CombatView { multi_buffer: keep_waiting(b, now), ..m1 };
    lemma_final_stats_buffer(m, m.multi_buffer, source, value, action_type, spell_name);
    assert(m2.mode == "multi"@);
    law_timeouts_keep_waiting_events(b, now);
    assert(!has_key(keep_waiting(b, now), key)) by {
        if has_key(keep_waiting(b, now), key) {
            let kw = keep_waiting(b, now);
            let i = choose|i: int| 0 <= i < kw.len() && #[trigger] kw[i].0 == key;
            assert(b.contains(kw[i]));
            let j = choose|j: int| 0 <= j < b.len() && b[j] == kw[i];
            if j < m.multi_buffer.len() {
                assert(b[j] == m.multi_buffer[j]);
            } else {
                assert(b[j] == (key, rec));
            }
        }
    }
}

/// A knock-out undone by a revival leaves the state as it was, and a second
/// knock-out of the same player changes nothing.
pub proof fn law_revive_undoes_ko(
    m: CombatView,
    player: Seq<char>,
    v1: i32,
    v2: i32,
    s1: Option<Seq<char>>,
    s2: Option<Seq<char>>,
)
    requires
        m.well_formed(),
        !m.ko_players.contains(player),
    ensures
        final_stats(final_stats(m, player, v1, "KO"@, s1), player, v2, "REVIVE"@, s2) == m,
        final_stats(final_stats(m, player, v1, "KO"@, s1), player, v2, "KO"@, s2) == final_stats(m, player, v1, "KO"@, s1),
{
    reveal_strlit("KO");
    reveal_strlit("REVIVE");
    let ko = m.ko_players;
    let pushed = ko.push(player);
    assert(add_name(ko, player) == pushed);
    assert(pushed[ko.len() as int] == player);
    assert(pushed.contains(player));
    let i = choose|i: int| 0 <= i < pushed.len() && pushed[i] == player;
    assert(i == ko.len() as int) by {
        if i != ko.len() as int {
            assert(pushed[i] == ko[i]);
        }
    }
    assert(pushed.remove(i) =~= ko);
    assert(remove_name(pushed, player) == ko);
    assert(add_name(pushed, player) == pushed);
    assert("REVIVE"@ != "KO"@) by {
        assert("REVIVE"@.len() != "KO"@.len());
    }
    let m1 = final_stats(m, player, v1, "KO"@, s1);
    assert(m1 == (CombatView { ko_players: pushed, ..m }));
    let m2 = final_stats(m1, player, v2, "REVIVE"@, s2);
    assert(m2 == (CombatView { ko_players: remove_name(pushed, player), ..m1 }));
    assert(m2 =~= m);
}

/// The state after `n` turn reports.
pub open spec fn after_turn_reports(m: CombatView, n: nat) -> CombatView
    decreases n,
{
    if n == 0 {
        m
    } else {
        final_stats(after_turn_reports(m, (n - 1) as nat), "TURN"@, 0, "TURN"@, None)
    }
}

/// From the start of a turn, the turn stays open for fewer reports than there
/// are standing players (at least one), and the next turn opens with the
/// last of them.
pub proof fn law_turn_closes_after_each_standing_player_reports(m: CombatView, n: nat)
    requires
        m.tour_reports_seen == 0,
        n <= expected_reports(m.players_to_include, m.ko_players.len()),
    ensures
        n < expected_reports(m.players_to_include, m.ko_players.len()) ==> after_turn_reports(m, n)
            == (CombatView { tour_reports_seen: n as i32, ..m }),
        n == expected_reports(m.players_to_include, m.ko_players.len()) ==> after_turn_reports(m, n)
            == (CombatView {
                current_turn: wrapping_add_i32(m.current_turn, 1),
                tour_reports_seen: 0,
                current_caster: None,
                current_spell: None,
                ..m
            }),
    decreases n,
{
    reveal_strlit("TURN");
    reveal_strlit("KO");
    reveal_strlit("REVIVE");
    assert("TURN"@ != "KO"@ && "TURN"@ != "REVIVE"@) by {
        assert("TURN"@.len() != "KO"@.len() && "TURN"@.len() != "REVIVE"@.len());
    }
    if n > 0 {
        law_turn_closes_after_each_standing_player_reports(m, (n - 1) as nat);
        let prev = after_turn_reports(m, (n - 1) as nat);
        assert(prev == (CombatView { tour_reports_seen: (n - 1) as i32, ..m }));
        assert(after_turn_reports(m, n) == final_stats(prev, "TURN"@, 0, "TURN"@, None));
    }
}

/// An effect keeps the author it was first credited to.
pub proof fn law_effect_keeps_first_author(
    m: CombatView,
    key: Seq<char>,
    spell1: Seq<char>,
    caster1: Seq<char>,
    turn1: i32,
    spell2: Seq<char>,
    caster2: Seq<char>,
    turn2: i32,
)
    ensures
        register_origin(register_origin(m, key, spell1, caster1, turn1), key, spell2, caster2, turn2)
            == register_origin(m, key, spell1, caster1, turn1),
{
    let m1 = register_origin(m, key, spell1, caster1, turn1);
    if !has_key(m.state_to_caster, key) {
        assert(m1.state_to_caster[m.state_to_caster.len() as int].0 == key);
    }
}

/// Clearing the combat keeps the settings, the mode, the archives and the
/// counter, and clearing it again changes nothing.
pub proof fn law_reset_forgets_only_the_combat(m: CombatView)
    ensures
        m.cleared().cleared() == m.cleared(),
        m.cleared().config == m.config,
        m.cleared().mode == m.mode,
        m.cleared().archives == m.archives,
        m.cleared().permanent_archives == m.permanent_archives,
        m.cleared().combat_counter == m.combat_counter,
        m.cleared().total_damage.len() == 0,
        m.cleared().well_formed(),
        m.cleared().history.len() == 0,
        m.cleared().state_to_caster.len() == 0,
        m.cleared().visible_players.len() == 0,
        m.cleared().ko_players.len() == 0,
        m.cleared().current_turn == 1,
        m.cleared().tour_reports_seen == 0,
        m.cleared().current_caster is None,
        m.cleared().current_spell is None,
        m.cleared().current_hits.len() == 0,
        m.cleared().multi_buffer.len() == 0,
        m.cleared().summon_to_owner.len() == 0,
        m.cleared().pending_summon_owner is None,
        m.cleared().players_to_include == m.players_to_include,
{
}

/// A saved combat is archived once: its archive ends both lists of combats,
/// the counter moves on, and nothing is left to save again.
pub proof fn law_saved_combat_is_archived_once(m: CombatView, damages: Seq<(Seq<char>, i32)>)
    ensures
        archived(m, damages).archives.len() == m.archives.len() + 1,
        archived(m, damages).permanent_archives.len() == m.permanent_archives.len() + 1,
        archived(m, damages).archives.last() == archived(m, damages).permanent_archives.last(),
        archived(m, damages).archives.last().damages == damages,
        archived(m, damages).combat_counter == wrapping_add_i32(m.combat_counter, 1),
        archived(m, damages).config.permanent_archives == archived(m, damages).permanent_archives,
        archived(m, damages).total_damage.len() == 0,
        archived(m, damages).current_turn == 1,
        archived(m, damages).tour_reports_seen == 0,
        archived(m, damages).ko_players.len() == 0,
        archived(m, damages).multi_buffer.len() == 0,
{
}

/// The followed players never hold an empty name nor a name twice, and
/// following the same name again changes nothing.
pub proof fn law_followed_players_stay_distinct(c: ConfigRecord, input: Seq<char>)
    requires
        c.tracked_players.no_duplicates(),
        forall|i: int| 0 <= i < c.tracked_players.len() ==> (#[trigger] c.tracked_players[i]).len() > 0,
    ensures
        follow_added(c, input).tracked_players.no_duplicates(),
        forall|i: int|
            0 <= i < follow_added(c, input).tracked_players.len() ==> (#[trigger] follow_added(
                c,
                input,
            ).tracked_players[i]).len() > 0,
        follow_added(follow_added(c, input), input) == follow_added(c, input),
{
    let name = crate::text::trim(input);
    let t = c.tracked_players;
    if name.len() > 0 && !t.contains(name) {
        let u = t.push(name);
        assert(u[t.len() as int] == name);
        assert(u.contains(name));
        assert forall|a: int, b: int| 0 <= a < u.len() && 0 <= b < u.len() && a != b implies u[a] != u[b] by {
            if a == t.len() as int {
                assert(u[b] == t[b]);
            } else if b == t.len() as int {
                assert(u[a] == t[a]);
            } else {
                assert(u[a] == t[a] && u[b] == t[b]);
            }
        }
    }
}

/// The exact sum of the values.
pub open spec fn exact_sum(s: Seq<i32>) -> int
    decreases s.len(),
{
    if s.len() == 0 {
        0
    } else {
        exact_sum(s.drop_last()) + s.last()
    }
}

/// The `i32` that `x` wraps to.
pub open spec fn wrap(x: int) -> int {
    let r = x % 0x1_0000_0000;
    if r > 0x7fff_ffff {
        r - 0x1_0000_0000
    } else {
        r
    }
}

proof fn lemma_wrap_same(x: int, y: int)
    requires
        (x - y) % 0x1_0000_0000 == 0,
    ensures
        wrap(x) == wrap(y),
{
    assert(x % 0x1_0000_0000 == y % 0x1_0000_0000) by (nonlinear_arith)
        requires
            (x - y) % 0x1_0000_0000 == 0,
    {
        vstd::arithmetic::div_mod::lemma_fundamental_div_mod(x - y, 0x1_0000_0000);
        vstd::arithmetic::div_mod::lemma_fundamental_div_mod(x, 0x1_0000_0000);
        vstd::arithmetic::div_mod::lemma_fundamental_div_mod(y, 0x1_0000_0000);
    }
}

proof fn lemma_wrap_congruent(x: int)
    ensures
        (wrap(x) - x) % 0x1_0000_0000 == 0,
        -0x8000_0000 <= wrap(x) <= 0x7fff_ffff,
{
    vstd::arithmetic::div_mod::lemma_fundamental_div_mod(x, 0x1_0000_0000);
    let q = x / 0x1_0000_0000;
    let r = x % 0x1_0000_0000;
    assert(x == 0x1_0000_0000 * q + r);
    if r > 0x7fff_ffff {
        assert(wrap(x) - x == 0x1_0000_0000 * (-q - 1));
        vstd::arithmetic::div_mod::lemma_mod_multiples_basic(-q - 1, 0x1_0000_0000);
    } else {
        assert(wrap(x) - x == 0x1_0000_0000 * (-q));
        vstd::arithmetic::div_mod::lemma_mod_multiples_basic(-q, 0x1_0000_0000);
    }
}

proof fn lemma_wrap_of_i32(a: int)
    requires
        -0x8000_0000 <= a <= 0x7fff_ffff,
    ensures
        wrap(a) == a,
{
    if a >= 0 {
        vstd::arithmetic::div_mod::lemma_small_mod(a as nat, 0x1_0000_0000);
    } else {
        vstd::arithmetic::div_mod::lemma_small_mod((a + 0x1_0000_0000) as nat, 0x1_0000_0000);
        lemma_wrap_same(a, a + 0x1_0000_0000);
        vstd::arithmetic::div_mod::lemma_mod_self_0(0x1_0000_0000);
        assert((a - (a + 0x1_0000_0000)) % 0x1_0000_0000 == 0) by {
            vstd::arithmetic::div_mod::lemma_mod_multiples_basic(-1, 0x1_0000_0000);
        }
    }
}

/// Two values that wrap to the same `i32` differ by a multiple of 2^32.
proof fn lemma_wrap_shift(x: int, y: int, d: int)
    requires
        (d - y) % 0x1_0000_0000 == 0,
    ensures
        wrap(x + d) == wrap(x + y),
{
    assert(((x + d) - (x + y)) == d - y);
    lemma_wrap_same(x + d, x + y);
}

proof fn lemma_wrapping_add_is_wrap(a: i32, b: i32)
    ensures
        wrapping_add_i32(a, b) as int == wrap(a + b),
{
    let w = wrapping_add_i32(a, b) as int;
    lemma_wrap_of_i32(w);
    if a + b > 0x7fff_ffff {
        assert(w == a + b - 0x1_0000_0000);
        assert((w - (a + b)) % 0x1_0000_0000 == 0) by {
            vstd::arithmetic::div_mod::lemma_mod_multiples_basic(-1, 0x1_0000_0000);
        }
    } else if a + b < -0x8000_0000 {
        assert(w == a + b + 0x1_0000_0000);
        assert((w - (a + b)) % 0x1_0000_0000 == 0) by {
            vstd::arithmetic::div_mod::lemma_mod_multiples_basic(1, 0x1_0000_0000);
        }
    } else {
        assert(w == a + b);
        assert((w - (a + b)) % 0x1_0000_0000 == 0);
    }
    lemma_wrap_same(w, a + b);
}

proof fn lemma_wrapping_sum_is_wrap(s: Seq<i32>)
    ensures
        wrapping_sum(s) as int == wrap(exact_sum(s)),
    decreases s.len(),
{
    if s.len() == 0 {
        lemma_wrap_of_i32(0);
    } else {
        let t = s.drop_last();
        lemma_wrapping_sum_is_wrap(t);
        lemma_wrapping_add_is_wrap(wrapping_sum(t), s.last());
        lemma_wrap_congruent(exact_sum(t));
        lemma_wrap_shift(s.last() as int, exact_sum(t), wrap(exact_sum(t)));
    }
}

proof fn lemma_exact_sum_update(s: Seq<i32>, k: int, x: i32)
    requires
        0 <= k < s.len(),
    ensures
        exact_sum(s.update(k, x)) == exact_sum(s) - s[k] + x,
    decreases s.len(),
{
    let u = s.update(k, x);
    if k == s.len() - 1 {
        assert(u.drop_last() =~= s.drop_last());
    } else {
        lemma_exact_sum_update(s.drop_last(), k, x);
        assert(u.drop_last() =~= s.drop_last().update(k, x));
    }
}

/// Adding a hit to one entry adds it to the sum of the entries.
proof fn lemma_sum_after_hit(s: Seq<i32>, k: int, v: i32)
    requires
        0 <= k < s.len(),
    ensures
        wrapping_sum(s.update(k, wrapping_add_i32(s[k], v))) == wrapping_add_i32(wrapping_sum(s), v),
{
    let w = wrapping_add_i32(s[k], v);
    let u = s.update(k, w);
    lemma_wrapping_sum_is_wrap(u);
    lemma_exact_sum_update(s, k, w);
    lemma_wrapping_add_is_wrap(s[k], v);
    lemma_wrap_congruent(s[k] + v);
    lemma_wrap_shift(exact_sum(s) - s[k], s[k] + v, w as int);
    lemma_wrapping_sum_is_wrap(s);
    lemma_wrapping_add_is_wrap(wrapping_sum(s), v);
    lemma_wrap_congruent(exact_sum(s));
    lemma_wrap_shift(v as int, exact_sum(s), wrapping_sum(s) as int);
}

/// The totals of the entries, in their order.
pub open spec fn entry_totals(es: Seq<SpellRecord>) -> Seq<i32> {
    es.map_values(|e: SpellRecord| e.total)
}

/// The total of each entry is the sum of its hits.
pub open spec fn entries_add_up(es: Seq<SpellRecord>) -> bool {
    forall|j: int| 0 <= j < es.len() ==> (#[trigger] es[j]).total == wrapping_sum(es[j].hits)
}

/// The figures of player `p` agree: the total is the sum of the totals of
/// the entries, and each entry adds up.
pub open spec fn player_consistent(m: CombatView, p: Seq<char>) -> bool {
    &&& value_or(m.total_damage, p, 0i32) == wrapping_sum(entry_totals(entries_of(m.history, p)))
    &&& entries_add_up(entries_of(m.history, p))
}

/// The ledger agrees with the history for every player, and no hit waits
/// outside the history.
pub open spec fn ledger_consistent(m: CombatView) -> bool {
    &&& m.current_hits.len() == 0
    &&& forall|p: Seq<char>| #[trigger] player_consistent(m, p)
}

proof fn lemma_value_or_set<V>(s: Seq<(Seq<char>, V)>, k: Seq<char>, v: V, q: Seq<char>, d: V)
    requires
        keys_unique(s),
    ensures
        value_or(set_value(s, k, v), q, d) == (if q == k { v } else { value_or(s, q, d) }),
{
    let t = set_value(s, k, v);
    lemma_set_value_unique(s, k, v);
    if has_key(s, k) {
        let i = key_index(s, k);
        assert(s[i].0 == k);
        if q == k {
            lemma_key_index(t, k, i);
        } else if has_key(s, q) {
            let j = key_index(s, q);
            assert(s[j].0 == q);
            assert(t[j] == s[j]);
            lemma_key_index(t, q, j);
        } else {
            assert(!has_key(t, q)) by {
                if has_key(t, q) {
                    let j = choose|j: int| 0 <= j < t.len() && #[trigger] t[j].0 == q;
                    assert(t[j] == s[j]);
                }
            }
        }
    } else {
        let n = s.len() as int;
        assert(t[n].0 == k);
        if q == k {
            lemma_key_index(t, k, n);
        } else if has_key(s, q) {
            let j = key_index(s, q);
            assert(s[j].0 == q);
            assert(t[j] == s[j]);
            lemma_key_index(t, q, j);
        } else {
            assert(!has_key(t, q)) by {
                if has_key(t, q) {
                    let j = choose|j: int| 0 <= j < t.len() && #[trigger] t[j].0 == q;
                    if j < n {
                        assert(t[j] == s[j]);
                    }
                }
            }
        }
    }
}

proof fn lemma_sum_push(s: Seq<i32>, v: i32)
    ensures
        wrapping_sum(s.push(v)) == wrapping_add_i32(wrapping_sum(s), v),
{
    assert(s.push(v).drop_last() =~= s);
}

proof fn lemma_with_hit_adds_up(e: SpellRecord, v: i32)
    requires
        e.total == wrapping_sum(e.hits),
    ensures
        with_hit(e, v).total == wrapping_sum(with_hit(e, v).hits),
{
    lemma_sum_push(e.hits, v);
}

proof fn lemma_single_hit_adds_up(spell: Seq<char>, turn: i32, v: i32, indirect: bool)
    ensures
        single_hit(spell, turn, v, indirect).total == wrapping_sum(single_hit(spell, turn, v, indirect).hits),
{
    lemma_sum_push(Seq::empty(), v);
    assert(seq![v] =~= Seq::<i32>::empty().push(v));
}

/// One more hit of `v` on the entry at `k`.
proof fn lemma_hit_on_entry(es: Seq<SpellRecord>, k: int, v: i32)
    requires
        0 <= k < es.len(),
        entries_add_up(es),
    ensures
        entries_add_up(es.update(k, with_hit(es[k], v))),
        wrapping_sum(entry_totals(es.update(k, with_hit(es[k], v)))) == wrapping_add_i32(wrapping_sum(entry_totals(es)), v),
{
    let u = es.update(k, with_hit(es[k], v));
    lemma_with_hit_adds_up(es[k], v);
    assert forall|j: int| 0 <= j < u.len() implies (#[trigger] u[j]).total == wrapping_sum(u[j].hits) by {
        if j != k {
            assert(u[j] == es[j]);
        }
    }
    let t = entry_totals(es);
    assert(entry_totals(u) =~= t.update(k, wrapping_add_i32(t[k], v)));
    lemma_sum_after_hit(t, k, v);
}

/// A hit of `v` in a new entry.
proof fn lemma_hit_in_new_entry(es: Seq<SpellRecord>, e: SpellRecord, v: i32)
    requires
        entries_add_up(es),
        e.total == v,
        e.total == wrapping_sum(e.hits),
    ensures
        entries_add_up(es.push(e)),
        wrapping_sum(entry_totals(es.push(e))) == wrapping_add_i32(wrapping_sum(entry_totals(es)), v),
{
    let u = es.push(e);
    assert forall|j: int| 0 <= j < u.len() implies (#[trigger] u[j]).total == wrapping_sum(u[j].hits) by {
        if j < es.len() {
            assert(u[j] == es[j]);
        }
    }
    assert(entry_totals(u) =~= entry_totals(es).push(v));
    lemma_sum_push(entry_totals(es), v);
}

proof fn lemma_record_hit_adds(es: Seq<SpellRecord>, spell: Seq<char>, turn: i32, v: i32, indirect: bool)
    requires
        entries_add_up(es),
    ensures
        entries_add_up(record_hit(es, spell, turn, v, indirect)),
        wrapping_sum(entry_totals(record_hit(es, spell, turn, v, indirect))) == wrapping_add_i32(
            wrapping_sum(entry_totals(es)),
            v,
        ),
{
    if es.len() > 0 && es.last().spell == spell && es.last().turn == turn && es.last().is_indirect == indirect {
        lemma_hit_on_entry(es, es.len() - 1, v);
    } else {
        lemma_single_hit_adds_up(spell, turn, v, indirect);
        lemma_hit_in_new_entry(es, single_hit(spell, turn, v, indirect), v);
    }
}

proof fn lemma_find_entry_bounds(es: Seq<SpellRecord>, spell: Seq<char>, turn: i32, i: nat)
    ensures
        -1 <= find_entry(es, spell, turn, i) < es.len(),
    decreases es.len() - i,
{
    if i < es.len() && !(es[i as int].spell == spell && es[i as int].turn == turn) {
        lemma_find_entry_bounds(es, spell, turn, i + 1);
    }
}

proof fn lemma_record_summon_hit_adds(es: Seq<SpellRecord>, spell: Seq<char>, turn: i32, v: i32)
    requires
        entries_add_up(es),
    ensures
        entries_add_up(record_summon_hit(es, spell, turn, v)),
        wrapping_sum(entry_totals(record_summon_hit(es, spell, turn, v))) == wrapping_add_i32(
            wrapping_sum(entry_totals(es)),
            v,
        ),
{
    lemma_find_entry_bounds(es, spell, turn, 0);
    let k = find_entry(es, spell, turn, 0);
    if k >= 0 {
        lemma_hit_on_entry(es, k, v);
    } else {
        lemma_single_hit_adds_up(spell, turn, v, false);
        lemma_hit_in_new_entry(es, single_hit(spell, turn, v, false), v);
    }
}

/// A hit of `v` credited to `who`, with `es` as the new entries of `who`,
/// keeps the ledger consistent when `es` adds the hit to the old entries.
proof fn lemma_hit_keeps_ledger(m: CombatView, who: Seq<char>, v: i32, es: Seq<SpellRecord>)
    requires
        keys_unique(m.total_damage),
        keys_unique(m.history),
        ledger_consistent(m),
        entries_add_up(es),
        wrapping_sum(entry_totals(es)) == wrapping_add_i32(wrapping_sum(entry_totals(entries_of(m.history, who))), v),
    ensures
        ledger_consistent(
            CombatView {
                total_damage: add_damage(m.total_damage, who, v),
                visible_players: add_name(m.visible_players, who),
                history: set_value(m.history, who, es),
                ..m
            },
        ),
{
    let m2 = CombatView {
        total_damage: add_damage(m.total_damage, who, v),
        visible_players: add_name(m.visible_players, who),
        history: set_value(m.history, who, es),
        ..m
    };
    assert forall|p: Seq<char>| #[trigger] player_consistent(m2, p) by {
        assert(player_consistent(m, p));
        assert(player_consistent(m, who));
        lemma_value_or_set(m.total_damage, who, wrapping_add_i32(value_or(m.total_damage, who, 0i32), v), p, 0i32);
        lemma_value_or_set(m.history, who, es, p, Seq::<SpellRecord>::empty());
    }
}

/// A state with the same totals, history and pending hits is as consistent.
proof fn lemma_same_ledger(m: CombatView, m2: CombatView)
    requires
        ledger_consistent(m),
        m2.total_damage == m.total_damage,
        m2.history == m.history,
        m2.current_hits == m.current_hits,
    ensures
        ledger_consistent(m2),
{
    assert forall|p: Seq<char>| #[trigger] player_consistent(m2, p) by {
        assert(player_consistent(m, p));
    }
}

/// Keys of the totals and of the history stay unique.
pub open spec fn ledger_keys_unique(m: CombatView) -> bool {
    keys_unique(m.total_damage) && keys_unique(m.history)
}

proof fn lemma_record_damage_keeps(
    m: CombatView,
    action_type: Seq<char>,
    source: Seq<char>,
    spell_name: Option<Seq<char>>,
    value: i32,
)
    requires
        ledger_keys_unique(m),
        ledger_consistent(m),
    ensures
        ledger_keys_unique(record_damage(m, action_type, source, spell_name, value)),
        ledger_consistent(record_damage(m, action_type, source, spell_name, value)),
{
    let es = entries_of(m.history, source);
    assert(player_consistent(m, source));
    if action_type == "DMG"@ {
        let spell = spell_name.unwrap_or("Sort Direct"@);
        let new_es = record_hit(es, spell, m.current_turn, value, false);
        lemma_record_hit_adds(es, spell, m.current_turn, value, false);
        lemma_hit_keeps_ledger(m, source, value, new_es);
        lemma_set_value_unique(m.history, source, new_es);
        lemma_set_value_unique(m.total_damage, source, wrapping_add_i32(value_or(m.total_damage, source, 0i32), value));
    } else if action_type == "INDIRECT"@ {
        let spell = spell_name.unwrap_or("Sort Indirect"@);
        let new_es = record_hit(es, spell, m.current_turn, value, true);
        lemma_record_hit_adds(es, spell, m.current_turn, value, true);
        lemma_hit_keeps_ledger(m, source, value, new_es);
        lemma_set_value_unique(m.history, source, new_es);
        lemma_set_value_unique(m.total_damage, source, wrapping_add_i32(value_or(m.total_damage, source, 0i32), value));
    } else if action_type == "SUMMON"@ {
        let spell = summon_spell_name(spell_name.unwrap_or("Attaque d'invocation"@));
        let new_es = record_summon_hit(es, spell, m.current_turn, value);
        lemma_record_summon_hit_adds(es, spell, m.current_turn, value);
        lemma_hit_keeps_ledger(m, source, value, new_es);
        lemma_set_value_unique(m.history, source, new_es);
        lemma_set_value_unique(m.total_damage, source, wrapping_add_i32(value_or(m.total_damage, source, 0i32), value));
    }
}

proof fn lemma_event_keeps(
    m: CombatView,
    key: Seq<char>,
    source: Seq<char>,
    value: i32,
    action_type: Seq<char>,
    spell_name: Option<Seq<char>>,
    now: u64,
)
    requires
        ledger_keys_unique(m),
        ledger_consistent(m),
    ensures
        ledger_keys_unique(keyed_action(m, key, source, value, action_type, spell_name, now)),
        ledger_consistent(keyed_action(m, key, source, value, action_type, spell_name, now)),
{
    let b = m.multi_buffer.push((key, BufferRecord { time: Some(now), source, value, action_type, spell_name }));
    let mb = CombatView { multi_buffer: b, ..m };
    lemma_same_ledger(m, mb);
    lemma_record_damage_keeps(m, action_type, source, spell_name, value);
    lemma_record_damage_keeps(mb, action_type, source, spell_name, value);
    let f = final_stats(m, source, value, action_type, spell_name);
    let fb = final_stats(mb, source, value, action_type, spell_name);
    lemma_same_ledger(record_damage(m, action_type, source, spell_name, value), record_damage(m, action_type, source, spell_name, value));
    if action_type == "KO"@ || action_type == "REVIVE"@ || action_type == "TURN"@ {
        lemma_same_ledger(m, f);
        lemma_same_ledger(mb, fb);
    }
    lemma_same_ledger(m, CombatView { multi_buffer: remove_key(m.multi_buffer, key), ..m });
}

/// Every event keeps the ledger consistent: the total of each player stays
/// the sum of the player's entries, each entry the sum of its hits.
pub proof fn law_every_event_keeps_ledger_consistent(
    m: CombatView,
    key: Seq<char>,
    source: Seq<char>,
    value: i32,
    action_type: Seq<char>,
    spell_name: Option<Seq<char>>,
    now: u64,
)
    requires
        m.well_formed(),
        ledger_consistent(m),
    ensures
        ledger_consistent(keyed_action(m, key, source, value, action_type, spell_name, now)),
{
    lemma_event_keeps(m, key, source, value, action_type, spell_name, now);
}

proof fn lemma_acted_keeps(
    m: CombatView,
    source: Seq<char>,
    value: i32,
    action_type: Seq<char>,
    spell_name: Option<Seq<char>>,
    now: u64,
)
    requires
        ledger_keys_unique(m),
        ledger_consistent(m),
    ensures
        ledger_keys_unique(acted(m, source, value, action_type, spell_name, now)),
        ledger_consistent(acted(m, source, value, action_type, spell_name, now)),
{
    lemma_event_keeps(m, event_key_of(action_type, source, value, spell_name), source, value, action_type, spell_name, now);
}

proof fn lemma_pushed_spell_keeps(m: CombatView, followed: Seq<Seq<char>>)
    requires
        ledger_consistent(m),
    ensures
        pushed_spell(m, followed).total_damage == m.total_damage,
        pushed_spell(m, followed).history == m.history,
        ledger_consistent(pushed_spell(m, followed)),
{
    assert(pushed_spell(m, followed) == (CombatView { current_hits: Seq::empty(), current_spell: None, ..m }));
    assert(m.current_hits =~= Seq::<i32>::empty());
    lemma_same_ledger(m, pushed_spell(m, followed));
}

proof fn lemma_damage_line_keeps(
    m: CombatView,
    clean: Seq<char>,
    mv: MatchesView,
    followed: Seq<Seq<char>>,
    now: u64,
)
    requires
        ledger_keys_unique(m),
        ledger_consistent(m),
    ensures
        ledger_keys_unique(damage_effect(m, clean, mv, followed, now)),
        ledger_consistent(damage_effect(m, clean, mv, followed, now)),
{
    let r = damage_effect(m, clean, mv, followed, now);
    if !followed.contains(trim(first_segment(clean, ":"@))) {
        match (summon_owner(m), mv.dmg) {
            (Some(owner), Some(g)) => {
                lemma_acted_keeps(m, owner, damage_amount(group(g, 1)), "SUMMON"@, m.current_spell, now);
            },
            _ => {
                let named = match mv.dmg_with_state {
                    Some(g) => has_key(m.state_to_caster, state_ref(g)),
                    None => false,
                };
                if named {
                    let g = match mv.dmg_with_state {
                        Some(g) => g,
                        None => Seq::empty(),
                    };
                    let rf = state_ref(g);
                    let o = m.state_to_caster[key_index(m.state_to_caster, rf)].1;
                    let m1 = CombatView {
                        state_to_caster: set_value(m.state_to_caster, rf, (o.0, o.1, m.current_turn)),
                        ..m
                    };
                    lemma_same_ledger(m, m1);
                    lemma_acted_keeps(m1, o.1, damage_amount(group(g, 2)), "INDIRECT"@, Some(o.0), now);
                } else {
                    match mv.dmg {
                        Some(g) => {
                            let k = first_origin_from(m.state_to_caster, lowercase_of(clean), 0);
                            if k >= 0 {
                                let e = m.state_to_caster[k];
                                let m1 = CombatView {
                                    state_to_caster: m.state_to_caster.update(k, (e.0, (e.1.0, e.1.1, m.current_turn))),
                                    ..m
                                };
                                lemma_same_ledger(m, m1);
                                lemma_acted_keeps(m1, e.1.1, damage_amount(group(g, 1)), "INDIRECT"@, Some(e.1.0), now);
                            } else {
                                match m.current_caster {
                                    Some(c) => {
                                        lemma_acted_keeps(m, c, damage_amount(group(g, 1)), "DMG"@, m.current_spell, now);
                                    },
                                    None => {},
                                }
                            }
                        },
                        None => {},
                    }
                }
            },
        }
    }
}

/// Every line of the combat log keeps the ledger consistent: the total of
/// each player stays the sum of the player's entries, each entry the sum of
/// its hits.
pub proof fn law_every_line_keeps_ledger_consistent(
    m: CombatView,
    clean: Seq<char>,
    mv: MatchesView,
    followed: Seq<Seq<char>>,
    summons: Seq<Seq<char>>,
    now: u64,
)
    requires
        m.well_formed(),
        ledger_consistent(m),
    ensures
        ledger_consistent(line_effect(m, clean, mv, followed, summons, now)),
{
    let r = line_effect(m, clean, mv, followed, summons, now);
    if clean.len() == 0 {
    } else if let Some(g) = mv.ko {
        lemma_pushed_spell_keeps(m, followed);
        match group(g, 1) {
            Some(t) => {
                lemma_acted_keeps(pushed_spell(m, followed), trim(t), 0, "KO"@, None, now);
            },
            None => {},
        }
    } else if let Some(g) = mv.revive {
        match group(g, 1) {
            Some(t) => {
                lemma_acted_keeps(m, trim(t), 0, "REVIVE"@, None, now);
            },
            None => {},
        }
    } else if let Some(g) = mv.summon {
        lemma_same_ledger(m, r);
    } else if mv.turn is Some {
        lemma_acted_keeps(m, "System"@, 0, "TURN"@, None, now);
        let m1 = acted(m, "System"@, 0, "TURN"@, None, now);
        assert(Seq::<i32>::empty() =~= m1.current_hits);
        lemma_same_ledger(m1, r);
    } else if let Some(g) = mv.cast {
        lemma_pushed_spell_keeps(m, followed);
        lemma_same_ledger(pushed_spell(m, followed), r);
    } else if let Some(g) = mv.state_apply {
        lemma_same_ledger(m, r);
    } else if contains_text(clean, "PV"@) {
        lemma_damage_line_keeps(m, clean, mv, followed, now);
    }
}

/// The ledger is consistent when a session starts and after every reset.
pub proof fn law_ledger_consistent_after_reset(m: CombatView, config: ConfigRecord)
    ensures
        ledger_consistent(m.cleared()),
        ledger_consistent(initial_state(config)),
{
    assert forall|p: Seq<char>| #[trigger] player_consistent(m.cleared(), p) by {
        assert(entry_totals(Seq::<SpellRecord>::empty()) =~= Seq::<i32>::empty());
    }
    assert forall|p: Seq<char>| #[trigger] player_consistent(initial_state(config), p) by {
        assert(entry_totals(Seq::<SpellRecord>::empty()) =~= Seq::<i32>::empty());
    }
}

/// Dropping stale events and writing the pending spell keep the ledger
/// consistent.
pub proof fn law_housekeeping_keeps_ledger_consistent(m: CombatView, now: u64, followed: Seq<Seq<char>>)
    requires
        ledger_consistent(m),
    ensures
        ledger_consistent(CombatView { multi_buffer: keep_waiting(m.multi_buffer, now), ..m }),
        ledger_consistent(pushed_spell(m, followed)),
{
    lemma_same_ledger(m, CombatView { multi_buffer: keep_waiting(m.multi_buffer, now), ..m });
    lemma_pushed_spell_keeps(m, followed);
}

/// A hit counts for its author only: the author's total grows by the hit
/// and the author is shown, while the totals and entries of every other
/// player stay as they were.
pub proof fn law_hit_counts_for_its_author_only(
    m: CombatView,
    action_type: Seq<char>,
    source: Seq<char>,
    spell_name: Option<Seq<char>>,
    value: i32,
    other: Seq<char>,
)
    requires
        m.well_formed(),
        action_type == "DMG"@ || action_type == "INDIRECT"@ || action_type == "SUMMON"@,
        other != source,
    ensures
        value_or(record_damage(m, action_type, source, spell_name, value).total_damage, source, 0i32)
            == wrapping_add_i32(value_or(m.total_damage, source, 0i32), value),
        value_or(record_damage(m, action_type, source, spell_name, value).total_damage, other, 0i32)
            == value_or(m.total_damage, other, 0i32),
        entries_of(record_damage(m, action_type, source, spell_name, value).history, other)
            == entries_of(m.history, other),
        record_damage(m, action_type, source, spell_name, value).visible_players.contains(source),
{
    let r = record_damage(m, action_type, source, spell_name, value);
    let t = wrapping_add_i32(value_or(m.total_damage, source, 0i32), value);
    lemma_value_or_set(m.total_damage, source, t, source, 0i32);
    lemma_value_or_set(m.total_damage, source, t, other, 0i32);
    let es = r.history;
    let new_es = if action_type == "DMG"@ {
        record_hit(entries_of(m.history, source), spell_name.unwrap_or("Sort Direct"@), m.current_turn, value, false)
    } else if action_type == "INDIRECT"@ {
        record_hit(entries_of(m.history, source), spell_name.unwrap_or("Sort Indirect"@), m.current_turn, value, true)
    } else {
        record_summon_hit(
            entries_of(m.history, source),
            summon_spell_name(spell_name.unwrap_or("Attaque d'invocation"@)),
            m.current_turn,
            value,
        )
    };
    lemma_value_or_set(m.history, source, new_es, other, Seq::<SpellRecord>::empty());
    let vp = m.visible_players;
    if !vp.contains(source) {
        assert(vp.push(source)[vp.len() as int] == source);
    }
}

/// The totals of some per-spell rows.
pub open spec fn group_totals(g: Seq<(Seq<char>, (i32, bool))>) -> Seq<i32> {
    g.map_values(|p: (Seq<char>, (i32, bool))| p.1.0)
}

proof fn lemma_map_drop_last<T>(s: Seq<T>, f: spec_fn(T) -> i32)
    requires
        s.len() > 0,
    ensures
        s.map_values(f).drop_last() == s.drop_last().map_values(f),
        s.map_values(f).last() == f(s.last()),
{
    assert(s.map_values(f).drop_last() =~= s.drop_last().map_values(f));
}

/// Adding `t` to the group keyed by `k` (a new group starting at 0) adds `t`
/// to the sum of the groups.
proof fn lemma_group_add(acc: Seq<(Seq<char>, (i32, bool))>, k: Seq<char>, t: i32, kind: bool)
    ensures
        ({
            let cur = value_or(acc, k, (0i32, kind));
            wrapping_sum(group_totals(set_value(acc, k, (wrapping_add_i32(cur.0, t), cur.1))))
                == wrapping_add_i32(wrapping_sum(group_totals(acc)), t)
        }),
{
    let cur = value_or(acc, k, (0i32, kind));
    let nv = (wrapping_add_i32(cur.0, t), cur.1);
    if has_key(acc, k) {
        let i = key_index(acc, k);
        assert(acc[i].0 == k);
        assert(group_totals(set_value(acc, k, nv)) =~= group_totals(acc).update(i, wrapping_add_i32(group_totals(acc)[i], t)));
        lemma_sum_after_hit(group_totals(acc), i, t);
    } else {
        assert(wrapping_add_i32(0i32, t) == t);
        assert(group_totals(set_value(acc, k, nv)) =~= group_totals(acc).push(t));
        lemma_sum_push(group_totals(acc), t);
    }
}

proof fn lemma_spell_totals_sum(es: Seq<SpellRecord>)
    ensures
        wrapping_sum(group_totals(spell_totals(es))) == wrapping_sum(entry_totals(es)),
    decreases es.len(),
{
    if es.len() > 0 {
        lemma_spell_totals_sum(es.drop_last());
        lemma_group_add(spell_totals(es.drop_last()), es.last().spell, es.last().total, es.last().is_indirect);
        lemma_map_drop_last(es, |e: SpellRecord| e.total);
        assert(entry_totals(es).drop_last() =~= entry_totals(es.drop_last()));
    }
}

proof fn lemma_label_totals_sum(es: Seq<SpellRecord>)
    ensures
        wrapping_sum(group_totals(label_totals(es))) == wrapping_sum(entry_totals(es)),
    decreases es.len(),
{
    if es.len() > 0 {
        lemma_label_totals_sum(es.drop_last());
        lemma_group_add(label_totals(es.drop_last()), stats_label(es.last()), es.last().total, es.last().is_indirect);
        lemma_map_drop_last(es, |e: SpellRecord| e.total);
        assert(entry_totals(es).drop_last() =~= entry_totals(es.drop_last()));
    }
}

proof fn lemma_exact_sum_remove(s: Seq<i32>, j: int)
    requires
        0 <= j < s.len(),
    ensures
        exact_sum(s.remove(j)) == exact_sum(s) - s[j],
    decreases s.len(),
{
    if j == s.len() - 1 {
        assert(s.remove(j) =~= s.drop_last());
    } else {
        lemma_exact_sum_remove(s.drop_last(), j);
        assert(s.remove(j).drop_last() =~= s.drop_last().remove(j));
    }
}

/// Rows that are a reordering of each other have the same exact sum.
proof fn lemma_reordered_sum<T>(a: Seq<T>, b: Seq<T>, f: spec_fn(T) -> i32)
    requires
        a.to_multiset() == b.to_multiset(),
    ensures
        exact_sum(a.map_values(f)) == exact_sum(b.map_values(f)),
    decreases a.len(),
{
    broadcast use vstd::multiset::group_multiset_axioms;
    vstd::seq_lib::to_multiset_len(a);
    vstd::seq_lib::to_multiset_len(b);
    if a.len() == 0 {
        assert(b.map_values(f) =~= Seq::<i32>::empty());
        assert(a.map_values(f) =~= Seq::<i32>::empty());
    } else {
        let x = a.last();
        let a1 = a.drop_last();
        assert(a1.push(x) =~= a);
        vstd::seq_lib::to_multiset_build(a1, x);
        vstd::seq_lib::to_multiset_contains(b, x);
        assert(b.to_multiset().count(x) > 0);
        let j = choose|j: int| 0 <= j < b.len() && b[j] == x;
        vstd::seq_lib::to_multiset_remove(b, j);
        assert(b.remove(j).to_multiset() =~= a1.to_multiset());
        lemma_reordered_sum(a1, b.remove(j), f);
        lemma_map_drop_last(a, f);
        assert(b.map_values(f).remove(j) =~= b.remove(j).map_values(f));
        lemma_exact_sum_remove(b.map_values(f), j);
    }
}

/// Rows that are a reordering of each other have the same wrapped sum.
proof fn lemma_reordered_wrapping_sum<T>(a: Seq<T>, b: Seq<T>, f: spec_fn(T) -> i32)
    requires
        a.to_multiset() == b.to_multiset(),
    ensures
        wrapping_sum(a.map_values(f)) == wrapping_sum(b.map_values(f)),
{
    lemma_reordered_sum(a, b, f);
    lemma_wrapping_sum_is_wrap(a.map_values(f));
    lemma_wrapping_sum_is_wrap(b.map_values(f));
}

/// The recap per spell that the combats and archives tabs show, in any
/// order, adds up to the player's total when the ledger is consistent.
pub proof fn law_recap_adds_up_to_player_total(m: CombatView, p: Seq<char>, rows: Seq<(Seq<char>, i32, bool)>)
    requires
        ledger_consistent(m),
        rows.to_multiset() == recap_rows(entries_of(m.history, p)).to_multiset(),
    ensures
        wrapping_sum(rows.map_values(|r: (Seq<char>, i32, bool)| r.1)) == value_or(m.total_damage, p, 0i32),
{
    let es = entries_of(m.history, p);
    assert(player_consistent(m, p));
    lemma_reordered_wrapping_sum(rows, recap_rows(es), |r: (Seq<char>, i32, bool)| r.1);
    assert(recap_rows(es).map_values(|r: (Seq<char>, i32, bool)| r.1) =~= group_totals(spell_totals(es)));
    lemma_spell_totals_sum(es);
}

/// The totals per spell that the statistics tab shows, in any order, add up
/// to the player's total when the ledger is consistent.
pub proof fn law_spell_totals_add_up_to_player_total(
    m: CombatView,
    p: Seq<char>,
    rows: Seq<(Seq<char>, (i32, bool))>,
)
    requires
        ledger_consistent(m),
        rows.to_multiset() == label_totals(entries_of(m.history, p)).to_multiset(),
    ensures
        wrapping_sum(group_totals(rows)) == value_or(m.total_damage, p, 0i32),
{
    let es = entries_of(m.history, p);
    assert(player_consistent(m, p));
    lemma_reordered_wrapping_sum(rows, label_totals(es), |q: (Seq<char>, (i32, bool))| q.1.0);
    assert(group_totals(rows) =~= rows.map_values(|q: (Seq<char>, (i32, bool))| q.1.0));
    assert(group_totals(label_totals(es)) =~= label_totals(es).map_values(|q: (Seq<char>, (i32, bool))| q.1.0));
    lemma_label_totals_sum(es);
}

/// The damage of some turn lines.
pub open spec fn line_totals(ls: Seq<(Seq<char>, i32, bool)>) -> Seq<i32> {
    ls.map_values(|l: (Seq<char>, i32, bool)| l.1)
}

/// The exact damage of the lines of turn `t`.
pub open spec fn turn_exact(es: Seq<SpellRecord>, t: i32) -> int {
    exact_sum(line_totals(turn_lines(es, t)))
}

/// The exact damage of the lines of the turns `ts`, turn after turn.
pub open spec fn turns_exact(es: Seq<SpellRecord>, ts: Seq<i32>) -> int
    decreases ts.len(),
{
    if ts.len() == 0 {
        0
    } else {
        turns_exact(es, ts.drop_last()) + turn_exact(es, ts.last())
    }
}

proof fn lemma_lines_total(ls: Seq<(Seq<char>, i32, bool)>)
    ensures
        lines_total(ls) == wrapping_sum(line_totals(ls)),
    decreases ls.len(),
{
    if ls.len() > 0 {
        lemma_lines_total(ls.drop_last());
        lemma_map_drop_last(ls, |l: (Seq<char>, i32, bool)| l.1);
        assert(line_totals(ls).drop_last() =~= line_totals(ls.drop_last()));
    }
}

proof fn lemma_turn_exact_step(es: Seq<SpellRecord>, t: i32)
    requires
        es.len() > 0,
    ensures
        turn_exact(es, t) == turn_exact(es.drop_last(), t) + (if es.last().turn == t { es.last().total as int } else { 0 }),
{
    let prev = turn_lines(es.drop_last(), t);
    if es.last().turn == t {
        let cur = prev.push(line_of(es.last()));
        assert(line_totals(cur) =~= line_totals(prev).push(es.last().total));
        assert(line_totals(prev).push(es.last().total).drop_last() =~= line_totals(prev));
    }
}

proof fn lemma_turns_exact_step(es: Seq<SpellRecord>, ts: Seq<i32>)
    requires
        es.len() > 0,
        ts.no_duplicates(),
    ensures
        turns_exact(es, ts) == turns_exact(es.drop_last(), ts) + (if ts.contains(es.last().turn) {
            es.last().total as int
        } else {
            0
        }),
    decreases ts.len(),
{
    if ts.len() > 0 {
        let t1 = ts.drop_last();
        assert(t1.no_duplicates()) by {
            assert forall|a: int, b: int| 0 <= a < t1.len() && 0 <= b < t1.len() && a != b implies t1[a] != t1[b] by {
                assert(t1[a] == ts[a] && t1[b] == ts[b]);
            }
        }
        lemma_turns_exact_step(es, t1);
        lemma_turn_exact_step(es, ts.last());
        let t0 = es.last().turn;
        if t1.contains(t0) {
            let j = choose|j: int| 0 <= j < t1.len() && t1[j] == t0;
            assert(ts[j] == t0);
            assert(ts.last() != t0) by {
                assert(ts[ts.len() - 1] == ts.last());
            }
            assert(ts.contains(t0));
        } else if ts.last() == t0 {
            assert(ts[ts.len() - 1] == t0);
            assert(ts.contains(t0));
        } else {
            assert(!ts.contains(t0)) by {
                if ts.contains(t0) {
                    let j = choose|j: int| 0 <= j < ts.len() && ts[j] == t0;
                    if j < ts.len() - 1 {
                        assert(t1[j] == t0);
                    }
                }
            }
        }
    }
}

proof fn lemma_turns_exact_empty(ts: Seq<i32>)
    ensures
        turns_exact(Seq::empty(), ts) == 0,
    decreases ts.len(),
{
    if ts.len() > 0 {
        lemma_turns_exact_empty(ts.drop_last());
        assert(line_totals(turn_lines(Seq::<SpellRecord>::empty(), ts.last())) =~= Seq::<i32>::empty());
    }
}

/// Distinct turns that cover every entry split the entries' damage exactly.
proof fn lemma_turns_exact_all(es: Seq<SpellRecord>, ts: Seq<i32>)
    requires
        ts.no_duplicates(),
        forall|i: int| 0 <= i < es.len() ==> ts.contains(#[trigger] es[i].turn),
    ensures
        turns_exact(es, ts) == exact_sum(entry_totals(es)),
    decreases es.len(),
{
    if es.len() == 0 {
        lemma_turns_exact_empty(ts);
        assert(es =~= Seq::<SpellRecord>::empty());
        assert(entry_totals(es) =~= Seq::<i32>::empty());
    } else {
        let e1 = es.drop_last();
        assert forall|i: int| 0 <= i < e1.len() implies ts.contains(#[trigger] e1[i].turn) by {
            assert(e1[i] == es[i]);
        }
        lemma_turns_exact_all(e1, ts);
        lemma_turns_exact_step(es, ts);
        assert(ts.contains(es[es.len() - 1].turn));
        lemma_map_drop_last(es, |e: SpellRecord| e.total);
        assert(entry_totals(es).drop_last() =~= entry_totals(e1));
    }
}

/// Adding two wrapped values wraps their exact sum.
proof fn lemma_wrap_add_wrapped(a: int, b: int)
    ensures
        wrap(wrap(a) + wrap(b)) == wrap(a + b),
{
    lemma_wrap_congruent(a);
    lemma_wrap_congruent(b);
    lemma_wrap_shift(wrap(a), b, wrap(b));
    lemma_wrap_shift(b, a, wrap(a));
}

proof fn lemma_block_totals(es: Seq<SpellRecord>, bt: Seq<i32>, ts: Seq<i32>)
    requires
        bt.len() == ts.len(),
        forall|k: int| 0 <= k < bt.len() ==> bt[k] as int == wrap(#[trigger] turn_exact(es, ts[k])),
    ensures
        wrapping_sum(bt) as int == wrap(turns_exact(es, ts)),
    decreases bt.len(),
{
    if bt.len() == 0 {
        lemma_wrap_of_i32(0);
    } else {
        let b1 = bt.drop_last();
        let t1 = ts.drop_last();
        assert forall|k: int| 0 <= k < b1.len() implies b1[k] as int == wrap(#[trigger] turn_exact(es, t1[k])) by {
            assert(b1[k] == bt[k] && t1[k] == ts[k]);
        }
        lemma_block_totals(es, b1, t1);
        lemma_wrapping_add_is_wrap(wrapping_sum(b1), bt.last());
        assert(bt.last() as int == wrap(turn_exact(es, ts.last()))) by {
            assert(bt[bt.len() - 1] == bt.last() && ts[ts.len() - 1] == ts.last());
        }
        lemma_wrap_add_wrapped(turns_exact(es, t1), turn_exact(es, ts.last()));
    }
}

/// The turn totals that the combats and archives tabs show add up to the
/// player's total when the ledger is consistent.
pub proof fn law_turn_totals_add_up_to_player_total(
    m: CombatView,
    p: Seq<char>,
    blocks: Seq<(i32, Seq<(Seq<char>, i32, bool)>, i32)>,
)
    requires
        ledger_consistent(m),
        is_turn_breakdown(blocks, entries_of(m.history, p)),
    ensures
        wrapping_sum(blocks.map_values(|b: (i32, Seq<(Seq<char>, i32, bool)>, i32)| b.2)) == value_or(
            m.total_damage,
            p,
            0i32,
        ),
{
    let es = entries_of(m.history, p);
    assert(player_consistent(m, p));
    let ts = blocks.map_values(|b: (i32, Seq<(Seq<char>, i32, bool)>, i32)| b.0);
    let bt = blocks.map_values(|b: (i32, Seq<(Seq<char>, i32, bool)>, i32)| b.2);
    assert(ts.no_duplicates()) by {
        assert forall|a: int, b: int| 0 <= a < ts.len() && 0 <= b < ts.len() && a != b implies ts[a] != ts[b] by {
            if a < b {
                assert(blocks[a].0 < blocks[b].0);
            } else {
                assert(blocks[b].0 < blocks[a].0);
            }
        }
    }
    assert forall|i: int| 0 <= i < es.len() implies ts.contains(#[trigger] es[i].turn) by {
        assert(has_block(blocks, es[i].turn));
        let k = choose|k: int| 0 <= k < blocks.len() && #[trigger] blocks[k].0 == es[i].turn;
        assert(ts[k] == es[i].turn);
    }
    assert forall|k: int| 0 <= k < bt.len() implies bt[k] as int == wrap(#[trigger] turn_exact(es, ts[k])) by {
        assert(blocks[k].1 == turn_lines(es, blocks[k].0));
        assert(blocks[k].2 == lines_total(turn_lines(es, blocks[k].0)));
        lemma_lines_total(turn_lines(es, blocks[k].0));
        lemma_wrapping_sum_is_wrap(line_totals(turn_lines(es, blocks[k].0)));
    }
    lemma_block_totals(es, bt, ts);
    lemma_turns_exact_all(es, ts);
    lemma_wrapping_sum_is_wrap(entry_totals(es));
}

proof fn lemma_acted_keeps_mode_and_count(
    m: CombatView,
    source: Seq<char>,
    value: i32,
    action_type: Seq<char>,
    spell_name: Option<Seq<char>>,
    now: u64,
)
    ensures
        acted(m, source, value, action_type, spell_name, now).mode == m.mode,
        acted(m, source, value, action_type, spell_name, now).players_to_include == m.players_to_include,
{
    let key = event_key_of(action_type, source, value, spell_name);
    let b = m.multi_buffer.push((key, BufferRecord { time: Some(now), source, value, action_type, spell_name }));
    lemma_final_stats_buffer(m, b, source, value, action_type, spell_name);
}

/// Choosing a mode, choosing one of the offered counts, returning to the
/// defaults, and every line of the log keep the player count among the
/// counts offered in the current mode: 1 to 6 in mono-account mode, 2 to 6 in
/// multi-account mode.
pub proof fn law_player_count_stays_offered(
    m: CombatView,
    count: i32,
    clean: Seq<char>,
    mv: MatchesView,
    followed: Seq<Seq<char>>,
    summons: Seq<Seq<char>>,
    now: u64,
)
    requires
        count_offered(m),
    ensures
        count_offered(mono_selected(m)),
        count_offered(multi_selected(m)),
        offered_counts(m.mode).0 <= count <= offered_counts(m.mode).1 ==> count_offered(
            CombatView { has_started: true, ..(CombatView { players_to_include: count, ..m }).cleared() },
        ),
        count_offered(
            (CombatView {
                config: reset_config(m.config),
                mode: reset_config(m.config).mode,
                players_to_include: reset_config(m.config).players_to_include,
                ..m
            }).cleared(),
        ),
        count_offered(line_effect(m, clean, mv, followed, summons, now)),
{
    reveal_strlit("mono");
    reveal_strlit("multi");
    assert("mono"@ != "multi"@) by {
        assert("mono"@[1] != "multi"@[1]);
    }
    let r = line_effect(m, clean, mv, followed, summons, now);
    if clean.len() == 0 {
    } else if let Some(g) = mv.ko {
        match group(g, 1) {
            Some(t) => {
                lemma_acted_keeps_mode_and_count(pushed_spell(m, followed), trim(t), 0, "KO"@, None, now);
            },
            None => {},
        }
    } else if let Some(g) = mv.revive {
        match group(g, 1) {
            Some(t) => {
                lemma_acted_keeps_mode_and_count(m, trim(t), 0, "REVIVE"@, None, now);
            },
            None => {},
        }
    } else if let Some(g) = mv.summon {
    } else if mv.turn is Some {
        lemma_acted_keeps_mode_and_count(m, "System"@, 0, "TURN"@, None, now);
    } else if let Some(g) = mv.cast {
    } else if let Some(g) = mv.state_apply {
    } else if contains_text(clean, "PV"@) {
        if !followed.contains(trim(first_segment(clean, ":"@))) {
            match (summon_owner(m), mv.dmg) {
                (Some(owner), Some(g)) => {
                    lemma_acted_keeps_mode_and_count(m, owner, damage_amount(group(g, 1)), "SUMMON"@, m.current_spell, now);
                },
                _ => {
                    let named = match mv.dmg_with_state {
                        Some(g) => has_key(m.state_to_caster, state_ref(g)),
                        None => false,
                    };
                    if named {
                        let g = match mv.dmg_with_state {
                            Some(g) => g,
                            None => Seq::empty(),
                        };
                        let rf = state_ref(g);
                        let o = m.state_to_caster[key_index(m.state_to_caster, rf)].1;
                        let m1 = CombatView {
                            state_to_caster: set_value(m.state_to_caster, rf, (o.0, o.1, m.current_turn)),
                            ..m
                        };
                        lemma_acted_keeps_mode_and_count(m1, o.1, damage_amount(group(g, 2)), "INDIRECT"@, Some(o.0), now);
                    } else {
                        match mv.dmg {
                            Some(g) => {
                                let k = first_origin_from(m.state_to_caster, lowercase_of(clean), 0);
                                if k >= 0 {
                                    let e = m.state_to_caster[k];
                                    let m1 = CombatView {
                                        state_to_caster: m.state_to_caster.update(k, (e.0, (e.1.0, e.1.1, m.current_turn))),
                                        ..m
                                    };
                                    lemma_acted_keeps_mode_and_count(
                                        m1,
                                        e.1.1,
                                        damage_amount(group(g, 1)),
                                        "INDIRECT"@,
                                        Some(e.1.0),
                                        now,
                                    );
                                } else {
                                    match m.current_caster {
                                        Some(c) => {
                                            lemma_acted_keeps_mode_and_count(m, c, damage_amount(group(g, 1)), "DMG"@, m.current_spell, now);
                                        },
                                        None => {},
                                    }
                                }
                            },
                            None => {},
                        }
                    }
                },
            }
        }
    }
}

proof fn lemma_no_overflow_add(a: i32, b: i32)
    requires
        i32::MIN <= a + b <= i32::MAX,
    ensures
        wrapping_add_i32(a, b) == a + b,
{
}

proof fn lemma_exact_sum_push(s: Seq<i32>, v: i32)
    ensures
        exact_sum(s.push(v)) == exact_sum(s) + v,
{
    assert(s.push(v).drop_last() =~= s);
}

/// Each entry's total is the exact sum of its hits.
pub open spec fn entries_add_up_exactly(es: Seq<SpellRecord>) -> bool {
    forall|j: int| 0 <= j < es.len() ==> (#[trigger] es[j]).total == exact_sum(es[j].hits)
}

/// A hit of `v` on the entry at `k`, or in a new entry, with no overflow.
proof fn lemma_exact_hit_on_entry(es: Seq<SpellRecord>, k: int, v: i32)
    requires
        0 <= k < es.len(),
        i32::MIN <= es[k].total + v <= i32::MAX,
    ensures
        exact_sum(entry_totals(es.update(k, with_hit(es[k], v)))) == exact_sum(entry_totals(es)) + v,
        entries_add_up_exactly(es) ==> entries_add_up_exactly(es.update(k, with_hit(es[k], v))),
{
    let u = es.update(k, with_hit(es[k], v));
    lemma_no_overflow_add(es[k].total, v);
    assert(entry_totals(u) =~= entry_totals(es).update(k, (es[k].total + v) as i32));
    lemma_exact_sum_update(entry_totals(es), k, (es[k].total + v) as i32);
    lemma_exact_sum_push(es[k].hits, v);
    if entries_add_up_exactly(es) {
        assert forall|j: int| 0 <= j < u.len() implies (#[trigger] u[j]).total == exact_sum(u[j].hits) by {
            if j != k {
                assert(u[j] == es[j]);
            }
        }
    }
}

proof fn lemma_exact_hit_new_entry(es: Seq<SpellRecord>, spell: Seq<char>, turn: i32, v: i32, indirect: bool)
    ensures
        exact_sum(entry_totals(es.push(single_hit(spell, turn, v, indirect)))) == exact_sum(entry_totals(es)) + v,
        entries_add_up_exactly(es) ==> entries_add_up_exactly(es.push(single_hit(spell, turn, v, indirect))),
{
    let e = single_hit(spell, turn, v, indirect);
    let u = es.push(e);
    assert(entry_totals(u) =~= entry_totals(es).push(v));
    lemma_exact_sum_push(entry_totals(es), v);
    lemma_exact_sum_push(Seq::<i32>::empty(), v);
    assert(seq![v] =~= Seq::<i32>::empty().push(v));
    if entries_add_up_exactly(es) {
        assert forall|j: int| 0 <= j < u.len() implies (#[trigger] u[j]).total == exact_sum(u[j].hits) by {
            if j < es.len() {
                assert(u[j] == es[j]);
            }
        }
    }
}

/// Without overflow, a hit adds exactly its value to its author's total and
/// to the sum of the totals of the author's entries, and entries whose
/// totals are the exact sums of their hits stay so.
pub proof fn law_hit_adds_exactly_without_overflow(
    m: CombatView,
    action_type: Seq<char>,
    source: Seq<char>,
    spell_name: Option<Seq<char>>,
    value: i32,
)
    requires
        m.well_formed(),
        action_type == "DMG"@ || action_type == "INDIRECT"@ || action_type == "SUMMON"@,
        i32::MIN <= value_or(m.total_damage, source, 0i32) + value <= i32::MAX,
        forall|j: int|
            0 <= j < entries_of(m.history, source).len() ==> i32::MIN <= (#[trigger] entries_of(m.history, source)[j]).total
                + value <= i32::MAX,
    ensures
        value_or(record_damage(m, action_type, source, spell_name, value).total_damage, source, 0i32)
            == value_or(m.total_damage, source, 0i32) + value,
        exact_sum(entry_totals(entries_of(record_damage(m, action_type, source, spell_name, value).history, source)))
            == exact_sum(entry_totals(entries_of(m.history, source))) + value,
        entries_add_up_exactly(entries_of(m.history, source)) ==> entries_add_up_exactly(
            entries_of(record_damage(m, action_type, source, spell_name, value).history, source),
        ),
{
    let es = entries_of(m.history, source);
    let t = wrapping_add_i32(value_or(m.total_damage, source, 0i32), value);
    lemma_value_or_set(m.total_damage, source, t, source, 0i32);
    lemma_no_overflow_add(value_or(m.total_damage, source, 0i32), value);
    let new_es = if action_type == "DMG"@ {
        record_hit(es, spell_name.unwrap_or("Sort Direct"@), m.current_turn, value, false)
    } else if action_type == "INDIRECT"@ {
        record_hit(es, spell_name.unwrap_or("Sort Indirect"@), m.current_turn, value, true)
    } else {
        record_summon_hit(es, summon_spell_name(spell_name.unwrap_or("Attaque d'invocation"@)), m.current_turn, value)
    };
    lemma_value_or_set(m.history, source, new_es, source, Seq::<SpellRecord>::empty());
    if action_type == "DMG"@ || action_type == "INDIRECT"@ {
        let spell = if action_type == "DMG"@ { spell_name.unwrap_or("Sort Direct"@) } else { spell_name.unwrap_or("Sort Indirect"@) };
        let ind = action_type != "DMG"@;
        if es.len() > 0 && es.last().spell == spell && es.last().turn == m.current_turn && es.last().is_indirect == ind {
            assert(es[es.len() - 1] == es.last());
            lemma_exact_hit_on_entry(es, es.len() - 1, value);
        } else {
            lemma_exact_hit_new_entry(es, spell, m.current_turn, value, ind);
        }
    } else {
        let spell = summon_spell_name(spell_name.unwrap_or("Attaque d'invocation"@));
        lemma_find_entry_bounds(es, spell, m.current_turn, 0);
        let k = find_entry(es, spell, m.current_turn, 0);
        if k >= 0 {
            lemma_exact_hit_on_entry(es, k, value);
        } else {
            lemma_exact_hit_new_entry(es, spell, m.current_turn, value, false);
        }
    }
}

proof fn lemma_digits_shape(n: nat)
    ensures
        digits_of(n).len() >= 1,
        n >= 10 ==> digits_of(n).len() >= 2,
        forall|k: int| 0 <= k < digits_of(n).len() ==> 48 <= (#[trigger] digits_of(n)[k] as u32) <= 57,
    decreases n,
{
    if n >= 10 {
        lemma_digits_shape(n / 10);
        let p = digits_of(n / 10);
        assert forall|k: int| 0 <= k < digits_of(n).len() implies 48 <= (#[trigger] digits_of(n)[k] as u32) <= 57 by {
            if k < p.len() {
                assert(digits_of(n)[k] == p[k]);
            }
        }
    }
}

proof fn lemma_digit_char(d: nat)
    requires
        d < 10,
    ensures
        ((((d + 48) as u32) as char) as u32) as int == d + 48,
{
}

proof fn lemma_digits_injective(a: nat, b: nat)
    requires
        digits_of(a) == digits_of(b),
    ensures
        a == b,
    decreases a,
{
    lemma_digits_shape(a);
    lemma_digits_shape(b);
    if a < 10 && b < 10 {
        let ca = (((a + 48) as u32) as char);
        let cb = (((b + 48) as u32) as char);
        assert(digits_of(a)[0] == ca);
        assert(digits_of(b)[0] == cb);
        lemma_digit_char(a);
        lemma_digit_char(b);
        assert(ca as u32 == cb as u32);
    } else if a >= 10 && b >= 10 {
        let ca = ((((a % 10) + 48) as u32) as char);
        let cb = ((((b % 10) + 48) as u32) as char);
        assert(digits_of(a) == digits_of(a / 10).push(ca));
        assert(digits_of(b) == digits_of(b / 10).push(cb));
        assert(digits_of(a).drop_last() =~= digits_of(a / 10));
        assert(digits_of(b).drop_last() =~= digits_of(b / 10));
        lemma_digits_injective(a / 10, b / 10);
        assert(ca == digits_of(a).last());
        assert(cb == digits_of(b).last());
        lemma_digit_char((a % 10) as nat);
        lemma_digit_char((b % 10) as nat);
        assert(ca as u32 == cb as u32);
        assert(a % 10 == b % 10);
        vstd::arithmetic::div_mod::lemma_fundamental_div_mod(a as int, 10);
        vstd::arithmetic::div_mod::lemma_fundamental_div_mod(b as int, 10);
    } else {
        assert(digits_of(a).len() == digits_of(b).len());
    }
}

/// The decimal text of a number holds no `_`, and tells the number.
proof fn lemma_decimal(n: int, m: int)
    ensures
        forall|k: int| 0 <= k < decimal(n).len() ==> #[trigger] decimal(n)[k] != '_',
        decimal(n) == decimal(m) ==> n == m,
{
    lemma_digits_shape(if n < 0 { (-n) as nat } else { n as nat });
    lemma_digits_shape(if m < 0 { (-m) as nat } else { m as nat });
    let dn = decimal(n);
    assert forall|k: int| 0 <= k < dn.len() implies #[trigger] dn[k] != '_' by {
        if n < 0 {
            if k > 0 {
                assert(dn[k] == digits_of((-n) as nat)[k - 1]);
            }
        }
    }
    if decimal(n) == decimal(m) {
        if n < 0 && m < 0 {
            assert(digits_of((-n) as nat) =~= decimal(n).skip(1));
            assert(digits_of((-m) as nat) =~= decimal(m).skip(1));
            lemma_digits_injective((-n) as nat, (-m) as nat);
        } else if n >= 0 && m >= 0 {
            lemma_digits_injective(n as nat, m as nat);
        } else if n < 0 {
            assert(decimal(n)[0] == '-');
            assert(48 <= (decimal(m)[0] as u32) <= 57);
        } else {
            assert(decimal(m)[0] == '-');
            assert(48 <= (decimal(n)[0] as u32) <= 57);
        }
    }
}

/// Two texts without `_`, each followed by `_`, that start the same text
/// are equal, and so are the rests.
proof fn lemma_split_at_underscore(x1: Seq<char>, r1: Seq<char>, x2: Seq<char>, r2: Seq<char>)
    requires
        x1 + seq!['_'] + r1 == x2 + seq!['_'] + r2,
        forall|k: int| 0 <= k < x1.len() ==> #[trigger] x1[k] != '_',
        forall|k: int| 0 <= k < x2.len() ==> #[trigger] x2[k] != '_',
    ensures
        x1 == x2,
        r1 == r2,
{
    let w = x1 + seq!['_'] + r1;
    if x1.len() < x2.len() {
        assert(w[x1.len() as int] == '_');
        assert((x2 + seq!['_'] + r2)[x1.len() as int] == x2[x1.len() as int]);
    } else if x2.len() < x1.len() {
        assert((x2 + seq!['_'] + r2)[x2.len() as int] == '_');
        assert(w[x2.len() as int] == x1[x2.len() as int]);
    }
    assert(x1 =~= w.take(x1.len() as int));
    assert(x2 =~= (x2 + seq!['_'] + r2).take(x2.len() as int));
    assert(r1 =~= w.skip(x1.len() as int + 1));
    assert(r2 =~= (x2 + seq!['_'] + r2).skip(x2.len() as int + 1));
}

proof fn lemma_event_key_parts(a: Seq<char>, s: Seq<char>, v: i32, sp: Option<Seq<char>>)
    ensures
        event_key_of(a, s, v, sp) == a + seq!['_'] + (s + seq!['_'] + (decimal(v as int) + seq!['_'] + spell_debug_of(sp))),
{
    reveal_strlit("_");
    assert("_"@ =~= seq!['_']);
    assert(event_key_of(a, s, v, sp) =~= a + seq!['_'] + (s + seq!['_'] + (decimal(v as int) + seq!['_'] + spell_debug_of(
        sp,
    ))));
}

/// The key of an event tells its value: two events of the same kind and
/// source whose keys are equal have the same value, whatever their spells.
pub proof fn law_event_key_tells_values_apart(
    a: Seq<char>,
    s: Seq<char>,
    v1: i32,
    sp1: Option<Seq<char>>,
    v2: i32,
    sp2: Option<Seq<char>>,
)
    requires
        event_key_of(a, s, v1, sp1) == event_key_of(a, s, v2, sp2),
    ensures
        v1 == v2,
{
    lemma_event_key_parts(a, s, v1, sp1);
    lemma_event_key_parts(a, s, v2, sp2);
    let head = a + seq!['_'] + s + seq!['_'];
    let t1 = decimal(v1 as int) + seq!['_'] + spell_debug_of(sp1);
    let t2 = decimal(v2 as int) + seq!['_'] + spell_debug_of(sp2);
    assert(a + seq!['_'] + (s + seq!['_'] + t1) =~= head + t1);
    assert(a + seq!['_'] + (s + seq!['_'] + t2) =~= head + t2);
    assert(t1 =~= (head + t1).skip(head.len() as int));
    assert(t2 =~= (head + t2).skip(head.len() as int));
    lemma_decimal(v1 as int, v2 as int);
    lemma_decimal(v2 as int, v1 as int);
    lemma_split_at_underscore(decimal(v1 as int), spell_debug_of(sp1), decimal(v2 as int), spell_debug_of(sp2));
}

/// The key of an event tells its kind, source and value when neither the
/// kinds nor the sources hold `_` (the event kinds never do).
pub proof fn law_event_key_tells_events_apart(
    a1: Seq<char>,
    s1: Seq<char>,
    v1: i32,
    sp1: Option<Seq<char>>,
    a2: Seq<char>,
    s2: Seq<char>,
    v2: i32,
    sp2: Option<Seq<char>>,
)
    requires
        event_key_of(a1, s1, v1, sp1) == event_key_of(a2, s2, v2, sp2),
        !a1.contains('_'),
        !a2.contains('_'),
        !s1.contains('_'),
        !s2.contains('_'),
    ensures
        a1 == a2,
        s1 == s2,
        v1 == v2,
{
    lemma_event_key_parts(a1, s1, v1, sp1);
    lemma_event_key_parts(a2, s2, v2, sp2);
    assert forall|k: int| 0 <= k < a1.len() implies #[trigger] a1[k] != '_' by {
        if a1[k] == '_' {
            assert(a1.contains('_'));
        }
    }
    assert forall|k: int| 0 <= k < a2.len() implies #[trigger] a2[k] != '_' by {
        if a2[k] == '_' {
            assert(a2.contains('_'));
        }
    }
    assert forall|k: int| 0 <= k < s1.len() implies #[trigger] s1[k] != '_' by {
        if s1[k] == '_' {
            assert(s1.contains('_'));
        }
    }
    assert forall|k: int| 0 <= k < s2.len() implies #[trigger] s2[k] != '_' by {
        if s2[k] == '_' {
            assert(s2.contains('_'));
        }
    }
    let t1 = decimal(v1 as int) + seq!['_'] + spell_debug_of(sp1);
    let t2 = decimal(v2 as int) + seq!['_'] + spell_debug_of(sp2);
    lemma_split_at_underscore(a1, s1 + seq!['_'] + t1, a2, s2 + seq!['_'] + t2);
    lemma_split_at_underscore(s1, t1, s2, t2);
    lemma_decimal(v1 as int, v2 as int);
    lemma_decimal(v2 as int, v1 as int);
    lemma_split_at_underscore(decimal(v1 as int), spell_debug_of(sp1), decimal(v2 as int), spell_debug_of(sp2));
}

/// In multi-account mode, two hits of one spell by one source that differ in
/// value are two events: both count, and both wait in the buffer.
pub proof fn law_different_values_both_count(
    m: CombatView,
    source: Seq<char>,
    action_type: Seq<char>,
    spell_name: Option<Seq<char>>,
    v1: i32,
    v2: i32,
    now: u64,
)
    requires
        m.well_formed(),
        m.mode == "multi"@,
        v1 != v2,
        !has_key(m.multi_buffer, event_key_of(action_type, source, v1, spell_name)),
        !has_key(m.multi_buffer, event_key_of(action_type, source, v2, spell_name)),
    ensures
        ({
            let k1 = event_key_of(action_type, source, v1, spell_name);
            let k2 = event_key_of(action_type, source, v2, spell_name);
            let b = m.multi_buffer.push(
                (k1, BufferRecord { time: Some(now), source, value: v1, action_type, spell_name }),
            ).push((k2, BufferRecord { time: Some(now), source, value: v2, action_type, spell_name }));
            keyed_action(keyed_action(m, k1, source, v1, action_type, spell_name, now), k2, source, v2, action_type, spell_name, now)
                == (CombatView {
                multi_buffer: b,
                ..final_stats(final_stats(m, source, v1, action_type, spell_name), source, v2, action_type, spell_name)
            })
        }),
{
    let k1 = event_key_of(action_type, source, v1, spell_name);
    let k2 = event_key_of(action_type, source, v2, spell_name);
    if k1 == k2 {
        law_event_key_tells_values_apart(action_type, source, v1, spell_name, v2, spell_name);
    }
    let b1 = m.multi_buffer.push((k1, BufferRecord { time: Some(now), source, value: v1, action_type, spell_name }));
    let b = b1.push((k2, BufferRecord { time: Some(now), source, value: v2, action_type, spell_name }));
    lemma_final_stats_buffer(m, b1, source, v1, action_type, spell_name);
    let f1 = final_stats(m, source, v1, action_type, spell_name);
    let m1 = keyed_action(m, k1, source, v1, action_type, spell_name, now);
    assert(m1 == (CombatView { multi_buffer: b1, ..f1 }));
    assert(!has_key(b1, k2)) by {
        if has_key(b1, k2) {
            let j = choose|j: int| 0 <= j < b1.len() && #[trigger] b1[j].0 == k2;
            if j < m.multi_buffer.len() {
                assert(b1[j] == m.multi_buffer[j]);
            }
        }
    }
    lemma_final_stats_buffer(m1, b, source, v2, action_type, spell_name);
    lemma_final_stats_buffer(f1, b1, source, v2, action_type, spell_name);
    lemma_final_stats_buffer(f1, b, source, v2, action_type, spell_name);
    lemma_final_stats_buffer(m, m.multi_buffer, source, v1, action_type, spell_name);
    assert(CombatView { multi_buffer: b, ..m1 } == CombatView { multi_buffer: b, ..f1 });
}

/// A knock-out line whose name is not a followed player (a monster) changes
/// nothing: no knock-out is recorded and the turn counting stays as it was.
pub proof fn law_ko_of_unfollowed_changes_nothing(
    m: CombatView,
    clean: Seq<char>,
    mv: MatchesView,
    followed: Seq<Seq<char>>,
    summons: Seq<Seq<char>>,
    now: u64,
    g: Seq<Option<Seq<char>>>,
)
    requires
        clean.len() > 0,
        mv.ko == Some(g),
        group(g, 1) matches Some(t) ==> !followed.contains(trim(t)),
    ensures
        line_effect(m, clean, mv, followed, summons, now) == m,
        ko_effect(m, g, followed, now) == m,
{
}

/// With a single client, the knock-out of a followed player who is standing
/// adds that player to the knocked-out players, and so one turn report
/// fewer is expected.
pub proof fn law_ko_of_followed_is_recorded(
    m: CombatView,
    g: Seq<Option<Seq<char>>>,
    followed: Seq<Seq<char>>,
    now: u64,
    name: Seq<char>,
)
    requires
        m.mode != "multi"@,
        group(g, 1) matches Some(t) && trim(t) == name,
        followed.contains(name),
        !m.ko_players.contains(name),
    ensures
        ko_effect(m, g, followed, now).ko_players == m.ko_players.push(name),
        ko_effect(m, g, followed, now).tour_reports_seen == m.tour_reports_seen,
        ko_effect(m, g, followed, now).current_turn == m.current_turn,
{
    reveal_strlit("KO");
    let p = pushed_spell(m, followed);
    assert(p.ko_players == m.ko_players && p.mode == m.mode);
    lemma_final_stats_buffer(p, p.multi_buffer, name, 0, "KO"@, None);
}

/// Where a search for an entry of `spell` in `turn` from `i` stops: at the
/// first such entry, or nowhere when none is left.
proof fn lemma_find_entry(es: Seq<SpellRecord>, spell: Seq<char>, turn: i32, i: nat)
    ensures
        find_entry(es, spell, turn, i) >= 0 ==> i <= find_entry(es, spell, turn, i) < es.len() && es[find_entry(
            es,
            spell,
            turn,
            i,
        )].spell == spell && es[find_entry(es, spell, turn, i)].turn == turn,
        find_entry(es, spell, turn, i) < 0 ==> forall|j: int|
            i <= j < es.len() ==> !((#[trigger] es[j]).spell == spell && es[j].turn == turn),
    decreases es.len() - i,
{
    if i < es.len() && !(es[i as int].spell == spell && es[i as int].turn == turn) {
        lemma_find_entry(es, spell, turn, i + 1);
    }
}

/// A summon's hit in turn `turn` only joins an entry of the same spell in
/// that turn: every other entry stays as it was, and the entry that holds
/// the new hit is of that spell and that turn.
pub proof fn law_summon_hit_stays_in_its_turn(es: Seq<SpellRecord>, spell: Seq<char>, turn: i32, v: i32)
    ensures
        forall|k: int|
            0 <= k < es.len() && !(es[k].spell == spell && es[k].turn == turn) ==> #[trigger] record_summon_hit(
                es,
                spell,
                turn,
                v,
            )[k] == es[k],
        record_summon_hit(es, spell, turn, v).len() == es.len() ==> exists|k: int|
            0 <= k < es.len() && (#[trigger] es[k]).spell == spell && es[k].turn == turn && record_summon_hit(
                es,
                spell,
                turn,
                v,
            )[k].turn == turn && record_summon_hit(es, spell, turn, v)[k].spell == spell && record_summon_hit(
                es,
                spell,
                turn,
                v,
            )[k].hits == es[k].hits.push(v),
        record_summon_hit(es, spell, turn, v).len() != es.len() ==> record_summon_hit(es, spell, turn, v).len()
            == es.len() + 1 && record_summon_hit(es, spell, turn, v).last().turn == turn && record_summon_hit(
            es,
            spell,
            turn,
            v,
        ).last().spell == spell && record_summon_hit(es, spell, turn, v).last().hits == seq![v] && (forall|j: int|
            0 <= j < es.len() ==> !((#[trigger] es[j]).spell == spell && es[j].turn == turn)),
{
    lemma_find_entry(es, spell, turn, 0);
    let k = find_entry(es, spell, turn, 0);
    let r = record_summon_hit(es, spell, turn, v);
    if k >= 0 {
        assert(r[k].hits == es[k].hits.push(v));
    } else {
        assert(r[es.len() as int] == r.last());
    }
}

/// A direct or indirect hit only joins the last entry, when that entry is of
/// the same spell, turn and kind; otherwise it opens a new entry of that
/// spell, turn and kind. Every other entry stays as it was.
pub proof fn law_hit_joins_only_the_last_matching_entry(
    es: Seq<SpellRecord>,
    spell: Seq<char>,
    turn: i32,
    v: i32,
    indirect: bool,
)
    ensures
        forall|k: int| 0 <= k < es.len() - 1 ==> #[trigger] record_hit(es, spell, turn, v, indirect)[k] == es[k],
        record_hit(es, spell, turn, v, indirect).last().spell == spell,
        record_hit(es, spell, turn, v, indirect).last().turn == turn,
        record_hit(es, spell, turn, v, indirect).last().is_indirect == indirect,
        record_hit(es, spell, turn, v, indirect).last().hits.last() == v,
        record_hit(es, spell, turn, v, indirect).len() == es.len() ==> es.len() > 0 && es.last().spell == spell
            && es.last().turn == turn && es.last().is_indirect == indirect && record_hit(
            es,
            spell,
            turn,
            v,
            indirect,
        ).last().hits == es.last().hits.push(v),
        record_hit(es, spell, turn, v, indirect).len() != es.len() ==> (record_hit(es, spell, turn, v, indirect).len()
            == es.len() + 1 && record_hit(es, spell, turn, v, indirect).last().hits == seq![v] && (es.len() > 0
            ==> es[es.len() - 1] == record_hit(es, spell, turn, v, indirect)[es.len() - 1])),
{
    let r = record_hit(es, spell, turn, v, indirect);
    if es.len() > 0 && es.last().spell == spell && es.last().turn == turn && es.last().is_indirect == indirect {
        assert(r[es.len() - 1] == r.last());
        assert(es[es.len() - 1] == es.last());
    } else {
        assert(r[es.len() as int] == r.last());
    }
}

/// A state that a followed caster puts on a target that is not followed is
/// bound, under its lower-case name, to its name, that caster and the
/// current turn, whatever it was bound to before; the other effects keep
/// their bindings.
pub proof fn law_state_line_binds_effect_to_its_caster(
    m: CombatView,
    g: Seq<Option<Seq<char>>>,
    followed: Seq<Seq<char>>,
    c: Seq<char>,
    other: Seq<char>,
    d: (Seq<char>, Seq<char>, i32),
)
    requires
        m.well_formed(),
        m.current_caster == Some(c),
        followed.contains(c),
        !followed.contains(trimmed_group(group(g, 1))),
    ensures
        has_key(
            state_apply_effect(m, g, followed).state_to_caster,
            lowercase_of(trimmed_group(group(g, 2))),
        ),
        value_or(state_apply_effect(m, g, followed).state_to_caster, lowercase_of(trimmed_group(group(g, 2))), d)
            == (trimmed_group(group(g, 2)), c, m.current_turn),
        other != lowercase_of(trimmed_group(group(g, 2))) ==> value_or(
            state_apply_effect(m, g, followed).state_to_caster,
            other,
            d,
        ) == value_or(m.state_to_caster, other, d),
{
    let name = trimmed_group(group(g, 2));
    let key = lowercase_of(name);
    let b = (name, c, m.current_turn);
    lemma_set_value_unique(m.state_to_caster, key, b);
    lemma_value_or_set(m.state_to_caster, key, b, key, d);
    lemma_value_or_set(m.state_to_caster, key, b, other, d);
}

} // verus!
