//! The end of a combat: the combat is ranked and archived, the counter moves
//! on and the state is cleared; and the return to the default settings.

use vstd::prelude::*;
use crate::ledger::wrapping_add_i32;
use crate::model::{AppConfig, AppState, ArchiveRecord, CombatArchive, CombatView, ConfigRecord, copy_archives, copy_history, copy_names, default_config, names_view, totals_view};
use crate::text::{decimal, decimal_text};

verus! {

/// The totals are listed from the highest to the lowest.
pub open spec fn ranked_desc(d: Seq<(Seq<char>, i32)>) -> bool {
    forall|i: int, j: int| 0 <= i < j < d.len() ==> d[i].1 >= d[j].1
}

/// The names joined with `sep` between two of them.
pub open spec fn join_names(names: Seq<Seq<char>>, sep: Seq<char>) -> Seq<char>
    decreases names.len(),
{
    if names.len() == 0 {
        Seq::empty()
    } else if names.len() == 1 {
        names[0]
    } else {
        join_names(names.drop_last(), sep) + sep + names.last()
    }
}

/// The title of the combat numbered `counter`.
pub open spec fn combat_title(counter: i32) -> Seq<char> {
    "Combat #"@ + decimal(counter as int)
}

/// Who took part, as the archive lists them.
pub open spec fn players_label(visible: Seq<Seq<char>>) -> Seq<char> {
    if visible.len() == 0 {
        "Inconnu"@
    } else {
        join_names(visible, ", "@)
    }
}

/// The archive of the current combat, with `damages` as its ranking.
pub open spec fn combat_record(m: CombatView, damages: Seq<(Seq<char>, i32)>) -> ArchiveRecord {
    ArchiveRecord {
        name: combat_title(m.combat_counter),
        players_involved: players_label(m.visible_players),
        total_turns: m.current_turn,
        damages,
        details_history: m.history,
    }
}

/// The state after the current combat is archived with `damages` as its
/// ranking: the archive joins the session's combats and the permanent
/// archives (in the state and in the settings), the counter moves on, and
/// the combat data is cleared.
pub open spec fn archived(m: CombatView, damages: Seq<(Seq<char>, i32)>) -> CombatView {
    let a = combat_record(m, damages);
    let count = wrapping_add_i32(m.combat_counter, 1);
    CombatView {
        archives: m.archives.push(a),
        permanent_archives: m.permanent_archives.push(a),
        combat_counter: count,
        config: ConfigRecord {
            permanent_archives: m.permanent_archives.push(a),
            combat_counter: count,
            ..m.config
        },
        ..m
    }.cleared()
}

/// The settings after a return to the defaults: everything default but the
/// log file, the followed players and the permanent archives.
pub open spec fn reset_config(c: ConfigRecord) -> ConfigRecord {
    ConfigRecord {
        log_path: c.log_path,
        tracked_players: c.tracked_players,
        permanent_archives: c.permanent_archives,
        ..default_config()
    }
}

/// The totals ranked from the highest to the lowest.
pub fn rank_by_damage(t: &Vec<(String, i32)>) -> (r: Vec<(String, i32)>)
    ensures
        ranked_desc(totals_view(r@)),
        totals_view(r@).to_multiset() == totals_view(t@).to_multiset(),
{
    let mut r: Vec<(String, i32)> = Vec::new();
    let mut k: usize = 0;
    assert(totals_view(r@) =~= totals_view(t@.take(0)));
    while k < t.len()
        invariant
            k <= t@.len(),
            ranked_desc(totals_view(r@)),
            totals_view(r@).to_multiset() == totals_view(t@.take(k as int)).to_multiset(),
        decreases t@.len() - k,
    {
        let x = (t[k].0.clone(), t[k].1);
        let mut pos: usize = 0;
        while pos < r.len() && r[pos].1 >= x.1
            invariant
                pos <= r@.len(),
                forall|j: int| 0 <= j < pos ==> r@[j].1 >= x.1,
            decreases r@.len() - pos,
        {
            pos = pos + 1;
        }
        let ghost before = totals_view(r@);
        let ghost xv = (x.0@, x.1);
        r.insert(pos, x);
        proof {
            assert(totals_view(r@) =~= before.insert(pos as int, xv));
            vstd::seq_lib::to_multiset_insert(before, pos as int, xv);
            assert(totals_view(t@.take(k + 1)) =~= totals_view(t@.take(k as int)).push(xv));
            vstd::seq_lib::to_multiset_build(totals_view(t@.take(k as int)), xv);
            let rv = totals_view(r@);
            assert forall|i: int, j: int| 0 <= i < j < rv.len() implies rv[i].1 >= rv[j].1 by {
                if j < pos {
                } else if j == pos {
                    assert(rv[i] == before[i]);
                } else if i < pos {
                    assert(rv[i] == before[i]);
                    assert(rv[j] == before[j - 1]);
                } else if i == pos {
                    assert(rv[j] == before[j - 1]);
                    assert(before[pos as int].1 < x.1);
                } else {
                    assert(rv[i] == before[i - 1]);
                    assert(rv[j] == before[j - 1]);
                }
            }
        }
        k = k + 1;
    }
    assert(t@.take(t@.len() as int) =~= t@);
    r
}

/// The names joined with `sep` between two of them.
pub fn join_text(names: &Vec<String>, sep: &str) -> (r: String)
    ensures
        r@ == join_names(names_view(names@), sep@),
{
    let mut r = String::new();
    let mut i: usize = 0;
    while i < names.len()
        invariant
            i <= names@.len(),
            r@ == join_names(names_view(names@.take(i as int)), sep@),
        decreases names@.len() - i,
    {
        let ghost prev = names_view(names@.take(i as int));
        if i > 0 {
            r.append(sep);
        }
        r.append(names[i].as_str());
        proof {
            let cur = names_view(names@.take(i + 1));
            assert(cur.drop_last() =~= prev);
            assert(cur.last() == names@[i as int]@);
            if i == 0 {
                assert(r@ =~= cur[0]);
            }
        }
        i = i + 1;
    }
    assert(names@.take(names@.len() as int) =~= names@);
    r
}

impl AppState {
    /// Archives the current combat (when some damage was dealt): ranked
    /// totals, players, turns and history go to the session's combats and to
    /// the permanent archives, the counter moves on, and the combat data is
    /// cleared. The settings then hold what has to be saved.
    pub fn save_current_combat(&mut self)
        requires
            old(self)@.well_formed(),
        ensures
            old(self)@.total_damage.len() == 0 ==> final(self)@ == old(self)@,
            old(self)@.total_damage.len() > 0 ==> exists|d: Seq<(Seq<char>, i32)>|
                ranked_desc(d) && d.to_multiset() == old(self)@.total_damage.to_multiset()
                    && final(self)@ == archived(old(self)@, d),
            final(self)@.well_formed(),
    {
        if self.total_damage.len() == 0 {
            return;
        }
        let ghost m = self@;
        let damages = rank_by_damage(&self.total_damage);
        let ghost dv = totals_view(damages@);
        let players_involved = if self.visible_players.len() == 0 {
            "Inconnu".to_owned()
        } else {
            join_text(&self.visible_players, ", ")
        };
        let mut name = "Combat #".to_owned();
        let number = decimal_text(self.combat_counter);
        name.append(number.as_str());
        let archive = CombatArchive {
            name,
            players_involved,
            total_turns: self.current_turn,
            damages,
            details_history: copy_history(&self.history),
        };
        assert(archive@ =~= combat_record(m, dv));
        self.archives.push(archive.duplicate());
        self.permanent_archives.push(archive);
        self.config.permanent_archives = copy_archives(&self.permanent_archives);
        self.combat_counter = self.combat_counter.wrapping_add(1);
        self.config.combat_counter = self.combat_counter;
        self.full_reset();
        assert(self@ =~= archived(m, dv));
        assert(ranked_desc(dv) && dv.to_multiset() == m.total_damage.to_multiset() && self@ == archived(m, dv));
    }

    /// Returns to the default settings, keeping the log file, the followed
    /// players and the permanent archives, and clears the combat data.
    pub fn reset_to_defaults(&mut self)
        requires
            old(self)@.well_formed(),
        ensures
            final(self)@ == (CombatView {
                config: reset_config(old(self)@.config),
                mode: reset_config(old(self)@.config).mode,
                players_to_include: reset_config(old(self)@.config).players_to_include,
                ..old(self)@
            }).cleared(),
            final(self)@.well_formed(),
    {
        let ghost m = self@;
        let saved_log_path = self.config.log_path.clone();
        let saved_tracked_players = copy_names(&self.config.tracked_players);
        let saved_archives = copy_archives(&self.config.permanent_archives);
        self.config = AppConfig::default();
        self.config.log_path = saved_log_path;
        self.config.tracked_players = saved_tracked_players;
        self.config.permanent_archives = saved_archives;
        self.mode = self.config.mode.clone();
        self.players_to_include = self.config.players_to_include;
        self.full_reset();
        assert(self@ =~= (CombatView {
            config: reset_config(m.config),
            mode: reset_config(m.config).mode,
            players_to_include: reset_config(m.config).players_to_include,
            ..m
        }).cleared());
    }
}

} // verus!
