//! Direct damage: a hit that a player's own spell deals.

use vstd::prelude::*;
use crate::keyed::{add_name, set_value};
use crate::ledger::{add_damage, add_to_total, entries_of, mark_name, record_for_player, record_hit};
use crate::model::{AppState, CombatView};

verus! {

/// The state after a direct hit of `v` by `source` with `spell`: the total
/// of `source` grows by `v`, `source` is shown, and the hit joins the last
/// entry of `source` when that entry is the same direct spell in the current
/// turn, else opens a new entry.
pub open spec fn direct_damage(m: CombatView, source: Seq<char>, spell: Seq<char>, v: i32) -> CombatView {
    CombatView {
        total_damage: add_damage(m.total_damage, source, v),
        visible_players: add_name(m.visible_players, source),
        history: set_value(
            m.history,
            source,
            record_hit(entries_of(m.history, source), spell, m.current_turn, v, false),
        ),
        ..m
    }
}

/// Records a direct hit at once, in the totals and in the history.
pub fn appliquer_degat_direct(state: &mut AppState, source: String, spell_name: String, value: i32)
    requires
        old(state)@.well_formed(),
    ensures
        final(state)@ == direct_damage(old(state)@, source@, spell_name@, value),
        final(state)@.well_formed(),
{
    add_to_total(&mut state.total_damage, &source, value);
    mark_name(&mut state.visible_players, &source);
    let turn = state.current_turn;
    record_for_player(&mut state.history, &source, spell_name, turn, value, false, false);
    assert(state@ =~= direct_damage(old(state)@, source@, spell_name@, value));
}

} // verus!
