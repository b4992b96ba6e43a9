//! Indirect damage: states (poisons and other effects) that a player put on
//! a target and that hurt it later.

use vstd::prelude::*;
use crate::keyed::{add_name, find_key, has_key, keys_unique, set_value};
use crate::ledger::{add_damage, add_to_total, entries_of, mark_name, record_for_player, record_hit};
use crate::model::{AppState, CombatView, origins_view};
use crate::text::{lowercase_of, to_lowercase, trim, trim_text};

verus! {

/// The state after an indirect hit of `v` credited to `caster` for the
/// effect `effect`: like a direct hit, but the hit only joins an entry that
/// is itself indirect.
pub open spec fn indirect_damage(m: CombatView, caster: Seq<char>, effect: Seq<char>, v: i32) -> CombatView {
    CombatView {
        total_damage: add_damage(m.total_damage, caster, v),
        visible_players: add_name(m.visible_players, caster),
        history: set_value(
            m.history,
            caster,
            record_hit(entries_of(m.history, caster), effect, m.current_turn, v, true),
        ),
        ..m
    }
}

/// The state once the effect keyed by `key` is known to come from
/// `spell_orig` of `caster` in `turn`: an effect already known keeps its
/// first author.
pub open spec fn register_origin(
    m: CombatView,
    key: Seq<char>,
    spell_orig: Seq<char>,
    caster: Seq<char>,
    turn: i32,
) -> CombatView {
    if has_key(m.state_to_caster, key) {
        m
    } else {
        CombatView { state_to_caster: m.state_to_caster.push((key, (spell_orig, caster, turn))), ..m }
    }
}

/// Records who applied an effect, under its trimmed lower-case name
/// `lowered` (the name as `str::to_lowercase` gives it), unless the effect is
/// already known.
pub fn register_state_key(
    state: &mut AppState,
    lowered: &str,
    spell_orig_name: String,
    caster_name: String,
    current_turn: i32,
)
    requires
        old(state)@.well_formed(),
    ensures
        final(state)@ == register_origin(old(state)@, trim(lowered@), spell_orig_name@, caster_name@, current_turn),
        final(state)@.well_formed(),
{
    let key = trim_text(lowered);
    let ghost before = origins_view(state.state_to_caster@);
    match find_key(&state.state_to_caster, key.as_str()) {
        Some(i) => {
            assert(before[i as int].0 == key@);
        },
        None => {
            assert(!has_key(before, key@)) by {
                if has_key(before, key@) {
                    let j = choose|j: int| 0 <= j < before.len() && #[trigger] before[j].0 == key@;
                    assert(state.state_to_caster@[j].0@ != key@);
                }
            }
            state.state_to_caster.push((key, (spell_orig_name, caster_name, current_turn)));
            assert(origins_view(state.state_to_caster@) =~= before.push(
                (trim(lowered@), (spell_orig_name@, caster_name@, current_turn)),
            ));
            assert(keys_unique(origins_view(state.state_to_caster@))) by {
                let s = origins_view(state.state_to_caster@);
                assert forall|a: int, b: int| 0 <= a < s.len() && 0 <= b < s.len() && a != b implies #[trigger] s[a].0 != #[trigger] s[b].0 by {
                    if a == before.len() as int {
                        assert(before[b].0 != key@);
                    } else if b == before.len() as int {
                        assert(before[a].0 != key@);
                    } else {
                        assert(s[a] == before[a] && s[b] == before[b]);
                    }
                }
            }
        },
    }
    assert(state@ =~= register_origin(old(state)@, trim(lowered@), spell_orig_name@, caster_name@, current_turn));
}

/// Records who applied an effect, unless the effect is already known (the
/// first author stays).
pub fn enregistrer_etat_indirect(
    state: &mut AppState,
    state_name: String,
    spell_orig_name: String,
    caster_name: String,
    current_turn: i32,
)
    requires
        old(state)@.well_formed(),
    ensures
        final(state)@ == register_origin(
            old(state)@,
            trim(lowercase_of(state_name@)),
            spell_orig_name@,
            caster_name@,
            current_turn,
        ),
        final(state)@.well_formed(),
{
    let lowered = to_lowercase(state_name.as_str());
    register_state_key(state, lowered.as_str(), spell_orig_name, caster_name, current_turn);
}

/// Records an indirect hit at once, in the totals and in the history, as an
/// indirect entry.
pub fn appliquer_degat_indirect(state: &mut AppState, caster: String, state_name: String, dmg: i32)
    requires
        old(state)@.well_formed(),
    ensures
        final(state)@ == indirect_damage(old(state)@, caster@, state_name@, dmg),
        final(state)@.well_formed(),
{
    add_to_total(&mut state.total_damage, &caster, dmg);
    mark_name(&mut state.visible_players, &caster);
    let turn = state.current_turn;
    record_for_player(&mut state.history, &caster, state_name, turn, dmg, true, false);
    assert(state@ =~= indirect_damage(old(state)@, caster@, state_name@, dmg));
}

} // verus!
