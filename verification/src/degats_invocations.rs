//! Summon damage: hits that a player's summon deals, credited to the player.

use vstd::prelude::*;
use crate::keyed::{add_name, set_value};
use crate::ledger::{add_damage, add_to_total, entries_of, mark_name, record_for_player, record_summon_hit};
use crate::model::{AppState, CombatView};

verus! {

/// How a summon's spell is named in its owner's history.
pub open spec fn summon_spell_name(spell: Seq<char>) -> Seq<char> {
    spell + " [Invoc]"@
}

/// The state after a hit of `v` by a summon of `owner` with `spell`: the
/// total of `owner` grows by `v`, `owner` is shown, and the hit joins the
/// first entry of `owner` for the marked spell in the current turn, else
/// opens a new entry.
pub open spec fn summon_damage(m: CombatView, owner: Seq<char>, spell: Seq<char>, v: i32) -> CombatView {
    CombatView {
        total_damage: add_damage(m.total_damage, owner, v),
        visible_players: add_name(m.visible_players, owner),
        history: set_value(
            m.history,
            owner,
            record_summon_hit(entries_of(m.history, owner), summon_spell_name(spell), m.current_turn, v),
        ),
        ..m
    }
}

/// Records a summon's hit at once, credited to its owner.
pub fn appliquer_degat_invocation(state: &mut AppState, owner: String, spell_name: String, value: i32)
    requires
        old(state)@.well_formed(),
    ensures
        final(state)@ == summon_damage(old(state)@, owner@, spell_name@, value),
        final(state)@.well_formed(),
{
    add_to_total(&mut state.total_damage, &owner, value);
    mark_name(&mut state.visible_players, &owner);
    let formatted_spell = spell_name.concat(" [Invoc]");
    let turn = state.current_turn;
    record_for_player(&mut state.history, &owner, formatted_spell, turn, value, false, true);
    assert(state@ =~= summon_damage(old(state)@, owner@, spell_name@, value));
}

} // verus!
