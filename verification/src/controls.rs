//! What the buttons of the tabs do to the state and the settings.

use vstd::prelude::*;
use crate::actions::expected_reports;
use crate::model::{AppConfig, AppState, CombatView, ConfigRecord, archives_view, copy_archives, names_view};
use crate::text::{contains_name, text_eq, trim, trim_text};

verus! {

/// The state after the mono-account mode is chosen: at most 6 players, and
/// the combat data cleared.
pub open spec fn mono_selected(m: CombatView) -> CombatView {
    CombatView {
        mode: "mono"@,
        players_to_include: if m.players_to_include > 6 { 6 } else { m.players_to_include },
        ..m
    }.cleared()
}

/// The state after the multi-account mode is chosen: at least 2 players,
/// and the combat data cleared.
pub open spec fn multi_selected(m: CombatView) -> CombatView {
    CombatView {
        mode: "multi"@,
        players_to_include: if m.players_to_include < 2 { 2 } else { m.players_to_include },
        ..m
    }.cleared()
}

/// Number of turn reports that close the current turn.
pub fn expected_turn_reports(state: &AppState) -> (r: i32)
    ensures
        r == expected_reports(state@.players_to_include, state@.ko_players.len()),
{
    let d = state.players_to_include.wrapping_sub(state.ko_players.len() as i32);
    if d < 1 { 1 } else { d }
}

/// The player counts that can be chosen in `mode`: 2 to 6 in multi-account
/// mode, 1 to 6 otherwise, as (least, most).
pub open spec fn offered_counts(mode: Seq<char>) -> (i32, i32) {
    (if mode == "multi"@ { 2 } else { 1 }, 6)
}

/// The state's player count is one of those offered in its mode.
pub open spec fn count_offered(m: CombatView) -> bool {
    offered_counts(m.mode).0 <= m.players_to_include && m.players_to_include <= offered_counts(m.mode).1
}

/// The least and the most players that can be chosen in `mode`.
pub fn offered_player_counts(mode: &str) -> (r: (i32, i32))
    ensures
        r == offered_counts(mode@),
{
    if text_eq(mode, "multi") {
        (2, 6)
    } else {
        (1, 6)
    }
}

impl AppState {
    /// Chooses the mono-account mode.
    pub fn select_mono_mode(&mut self)
        ensures
            final(self)@ == mono_selected(old(self)@),
            final(self)@.well_formed(),
    {
        self.mode = "mono".to_owned();
        if self.players_to_include > 6 {
            self.players_to_include = 6;
        }
        let ghost m = self@;
        self.full_reset();
        assert(m == CombatView {
            mode: "mono"@,
            players_to_include: if old(self)@.players_to_include > 6 { 6 } else { old(self)@.players_to_include },
            ..old(self)@
        });
    }

    /// Chooses the multi-account mode.
    pub fn select_multi_mode(&mut self)
        ensures
            final(self)@ == multi_selected(old(self)@),
            final(self)@.well_formed(),
    {
        self.mode = "multi".to_owned();
        if self.players_to_include < 2 {
            self.players_to_include = 2;
        }
        let ghost m = self@;
        self.full_reset();
        assert(m == CombatView {
            mode: "multi"@,
            players_to_include: if old(self)@.players_to_include < 2 { 2 } else { old(self)@.players_to_include },
            ..old(self)@
        });
    }

    /// Chooses how many players the group has; the combat data is cleared and
    /// the session counts as started.
    pub fn select_player_count(&mut self, count: i32)
        ensures
            final(self)@ == (CombatView {
                has_started: true,
                ..(CombatView { players_to_include: count, ..old(self)@ }).cleared()
            }),
            final(self)@.well_formed(),
    {
        self.players_to_include = count;
        self.full_reset();
        self.has_started = true;
    }

    /// Moves a combat of the session to the permanent archives.
    pub fn archive_session_combat(&mut self, idx: usize)
        requires
            idx < old(self)@.archives.len(),
        ensures
            final(self)@ == (CombatView {
                permanent_archives: old(self)@.permanent_archives.push(old(self)@.archives[idx as int]),
                archives: old(self)@.archives.remove(idx as int),
                config: ConfigRecord {
                    permanent_archives: old(self)@.permanent_archives.push(old(self)@.archives[idx as int]),
                    ..old(self)@.config
                },
                ..old(self)@
            }),
    {
        let ghost m = self@;
        let combat = self.archives[idx].duplicate();
        self.permanent_archives.push(combat);
        self.config.permanent_archives = copy_archives(&self.permanent_archives);
        self.archives.remove(idx);
        assert(archives_view(self.archives@) =~= m.archives.remove(idx as int));
        assert(archives_view(self.permanent_archives@) =~= m.permanent_archives.push(m.archives[idx as int]));
        assert(self@ =~= CombatView {
            permanent_archives: m.permanent_archives.push(m.archives[idx as int]),
            archives: m.archives.remove(idx as int),
            config: ConfigRecord { permanent_archives: m.permanent_archives.push(m.archives[idx as int]), ..m.config },
            ..m
        });
    }

    /// Deletes a combat of the session.
    pub fn delete_session_combat(&mut self, idx: usize)
        requires
            idx < old(self)@.archives.len(),
        ensures
            final(self)@ == (CombatView { archives: old(self)@.archives.remove(idx as int), ..old(self)@ }),
    {
        let ghost m = self@;
        self.archives.remove(idx);
        assert(archives_view(self.archives@) =~= m.archives.remove(idx as int));
        assert(self@ =~= CombatView { archives: m.archives.remove(idx as int), ..m });
    }

    /// Deletes every combat of the session.
    pub fn clear_session_combats(&mut self)
        ensures
            final(self)@ == (CombatView { archives: Seq::empty(), ..old(self)@ }),
    {
        self.archives.clear();
        assert(self@ =~= CombatView { archives: Seq::empty(), ..old(self)@ });
    }

    /// Deletes every permanent archive, in the state and in the settings.
    pub fn clear_permanent_archives(&mut self)
        ensures
            final(self)@ == (CombatView {
                permanent_archives: Seq::empty(),
                config: ConfigRecord { permanent_archives: Seq::empty(), ..old(self)@.config },
                ..old(self)@
            }),
    {
        self.permanent_archives.clear();
        self.config.permanent_archives = Vec::new();
        assert(self@ =~= CombatView {
            permanent_archives: Seq::empty(),
            config: ConfigRecord { permanent_archives: Seq::empty(), ..old(self)@.config },
            ..old(self)@
        });
    }

    /// Deletes one permanent archive, in the state and in the settings.
    pub fn delete_permanent_archive(&mut self, idx: usize)
        requires
            idx < old(self)@.permanent_archives.len(),
        ensures
            final(self)@ == (CombatView {
                permanent_archives: old(self)@.permanent_archives.remove(idx as int),
                config: ConfigRecord {
                    permanent_archives: old(self)@.permanent_archives.remove(idx as int),
                    ..old(self)@.config
                },
                ..old(self)@
            }),
    {
        let ghost m = self@;
        self.permanent_archives.remove(idx);
        self.config.permanent_archives = copy_archives(&self.permanent_archives);
        assert(archives_view(self.permanent_archives@) =~= m.permanent_archives.remove(idx as int));
        assert(self@ =~= CombatView {
            permanent_archives: m.permanent_archives.remove(idx as int),
            config: ConfigRecord { permanent_archives: m.permanent_archives.remove(idx as int), ..m.config },
            ..m
        });
    }

    /// Renames one permanent archive, in the state and in the settings.
    pub fn rename_permanent_archive(&mut self, idx: usize, name: String)
        requires
            idx < old(self)@.permanent_archives.len(),
        ensures
            final(self)@ == (CombatView {
                permanent_archives: old(self)@.permanent_archives.update(
                    idx as int,
                    crate::model::ArchiveRecord { name: name@, ..old(self)@.permanent_archives[idx as int] },
                ),
                config: ConfigRecord {
                    permanent_archives: old(self)@.permanent_archives.update(
                        idx as int,
                        crate::model::ArchiveRecord { name: name@, ..old(self)@.permanent_archives[idx as int] },
                    ),
                    ..old(self)@.config
                },
                ..old(self)@
            }),
    {
        let ghost m = self@;
        let ghost renamed = m.permanent_archives.update(
            idx as int,
            crate::model::ArchiveRecord { name: name@, ..m.permanent_archives[idx as int] },
        );
        self.permanent_archives[idx].name = name;
        self.config.permanent_archives = copy_archives(&self.permanent_archives);
        assert(archives_view(self.permanent_archives@) =~= renamed);
        assert(self@ =~= CombatView {
            permanent_archives: renamed,
            config: ConfigRecord { permanent_archives: renamed, ..m.config },
            ..m
        });
    }
}

/// The settings after an attempt to follow `input`: its trimmed name is
/// added at the end unless it is empty or already followed.
pub open spec fn follow_added(c: ConfigRecord, input: Seq<char>) -> ConfigRecord {
    let name = trim(input);
    if name.len() > 0 && !c.tracked_players.contains(name) {
        ConfigRecord { tracked_players: c.tracked_players.push(name), ..c }
    } else {
        c
    }
}

impl AppConfig {
    /// Follows a new player, named by `input` trimmed; tells whether it was
    /// added (an empty or already followed name is not).
    pub fn add_tracked_player(&mut self, input: &str) -> (added: bool)
        ensures
            final(self)@ == follow_added(old(self)@, input@),
            added == (trim(input@).len() > 0 && !old(self)@.tracked_players.contains(trim(input@))),
    {
        let name = trim_text(input);
        proof {
            crate::actions::lemma_contains_name(self.tracked_players@, name@);
        }
        if name.unicode_len() > 0 && !contains_name(self.tracked_players.as_slice(), name.as_str()) {
            let ghost before = names_view(self.tracked_players@);
            self.tracked_players.push(name);
            assert(names_view(self.tracked_players@) =~= before.push(trim(input@)));
            assert(self@ =~= follow_added(old(self)@, input@));
            true
        } else {
            false
        }
    }

    /// Stops following the player at `idx`.
    pub fn remove_tracked_player(&mut self, idx: usize)
        requires
            idx < old(self)@.tracked_players.len(),
        ensures
            final(self)@ == (ConfigRecord { tracked_players: old(self)@.tracked_players.remove(idx as int), ..old(self)@ }),
    {
        let ghost before = names_view(self.tracked_players@);
        self.tracked_players.remove(idx);
        assert(names_view(self.tracked_players@) =~= before.remove(idx as int));
        assert(self@ =~= ConfigRecord { tracked_players: before.remove(idx as int), ..old(self)@ });
    }

    /// Exchanges the places of two followed players.
    pub fn swap_tracked_players(&mut self, i: usize, j: usize)
        requires
            i < old(self)@.tracked_players.len(),
            j < old(self)@.tracked_players.len(),
        ensures
            final(self)@ == (ConfigRecord {
                tracked_players: old(self)@.tracked_players.update(i as int, old(self)@.tracked_players[j as int]).update(
                    j as int,
                    old(self)@.tracked_players[i as int],
                ),
                ..old(self)@
            }),
    {
        let ghost before = names_view(self.tracked_players@);
        let a = self.tracked_players[i].clone();
        let b = self.tracked_players[j].clone();
        self.tracked_players.set(i, b);
        self.tracked_players.set(j, a);
        assert(names_view(self.tracked_players@) =~= before.update(i as int, before[j as int]).update(j as int, before[i as int]));
        assert(self@ =~= ConfigRecord {
            tracked_players: before.update(i as int, before[j as int]).update(j as int, before[i as int]),
            ..old(self)@
        });
    }
}

} // verus!
