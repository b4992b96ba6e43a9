//! Reading one combat-log line: which kind of line it is, and what it does
//! to the combat state.

use vstd::prelude::*;
use crate::actions::{keyed_action, pushed_spell, event_key_of, lemma_contains_name};
use crate::keyed::{find_key, has_key, key_index, keys_unique, lemma_key_index, lemma_set_value_unique, lookup, set_value};
use crate::model::{AppState, CombatView, names_view, opt_text as opt_view, origins_view, pairs_view};
use crate::parser::{
    LogPatterns, captures, captures_view, group, group_text, groups_view, normalize_combat_only,
    normalized, regex_captures,
};
use crate::text::{
    abs_wrapping, abs_wrapping_i32, contains, contains_name, contains_text, first_segment,
    first_segment_text, lowercase_of, parse_i32, parse_i32_text, replace_all_text, replace_text,
    second_segment, second_segment_text, to_lowercase, trim, trim_text,
};

verus! {

/// What the damage meter does with an event, `process_action` of it.
pub open spec fn acted(
    m: CombatView,
    source: Seq<char>,
    value: i32,
    action_type: Seq<char>,
    spell_name: Option<Seq<char>>,
    now: u64,
) -> CombatView {
    keyed_action(m, event_key_of(action_type, source, value, spell_name), source, value, action_type, spell_name, now)
}

/// A captured text, trimmed; the empty text when the group is missing.
pub open spec fn trimmed_group(g: Option<Seq<char>>) -> Seq<char> {
    match g {
        Some(t) => trim(t),
        None => Seq::empty(),
    }
}

/// The damage a captured number stands for: spaces dropped, parsed as an
/// `i32` (0 when that fails), and made positive.
pub open spec fn damage_amount(g: Option<Seq<char>>) -> i32 {
    match g {
        Some(t) => abs_wrapping(
            match parse_i32(replace_text(t, " "@, Seq::empty())) {
                Some(v) => v,
                None => 0,
            },
        ),
        None => 0,
    }
}

/// The captures of each line expression on one line.
pub struct LineMatches {
    pub ko: Option<Vec<Option<String>>>,
    pub revive: Option<Vec<Option<String>>>,
    pub summon: Option<Vec<Option<String>>>,
    pub turn: Option<Vec<Option<String>>>,
    pub cast: Option<Vec<Option<String>>>,
    pub state_apply: Option<Vec<Option<String>>>,
    pub dmg_with_state: Option<Vec<Option<String>>>,
    pub dmg: Option<Vec<Option<String>>>,
}

/// What a `LineMatches` holds.
#[verifier::ext_equal]
pub struct MatchesView {
    pub ko: Option<Seq<Option<Seq<char>>>>,
    pub revive: Option<Seq<Option<Seq<char>>>>,
    pub summon: Option<Seq<Option<Seq<char>>>>,
    pub turn: Option<Seq<Option<Seq<char>>>>,
    pub cast: Option<Seq<Option<Seq<char>>>>,
    pub state_apply: Option<Seq<Option<Seq<char>>>>,
    pub dmg_with_state: Option<Seq<Option<Seq<char>>>>,
    pub dmg: Option<Seq<Option<Seq<char>>>>,
}

impl View for LineMatches {
    type V = MatchesView;

    open spec fn view(&self) -> MatchesView {
        MatchesView {
            ko: captures_view(self.ko),
            revive: captures_view(self.revive),
            summon: captures_view(self.summon),
            turn: captures_view(self.turn),
            cast: captures_view(self.cast),
            state_apply: captures_view(self.state_apply),
            dmg_with_state: captures_view(self.dmg_with_state),
            dmg: captures_view(self.dmg),
        }
    }
}

/// What each expression of `p` captures on `line`.
pub open spec fn matches_of(p: LogPatterns, line: Seq<char>) -> MatchesView {
    MatchesView {
        ko: regex_captures(p.ko.source(), line),
        revive: regex_captures(p.revive.source(), line),
        summon: regex_captures(p.summon.source(), line),
        turn: regex_captures(p.turn.source(), line),
        cast: regex_captures(p.cast.source(), line),
        state_apply: regex_captures(p.state_apply.source(), line),
        dmg_with_state: regex_captures(p.dmg_with_state.source(), line),
        dmg: regex_captures(p.dmg.source(), line),
    }
}

/// Runs every line expression on a line.
pub fn match_line(p: &LogPatterns, line: &str) -> (r: LineMatches)
    ensures
        r@ == matches_of(*p, line@),
{
    LineMatches {
        ko: captures(&p.ko, line),
        revive: captures(&p.revive, line),
        summon: captures(&p.summon, line),
        turn: captures(&p.turn, line),
        cast: captures(&p.cast, line),
        state_apply: captures(&p.state_apply, line),
        dmg_with_state: captures(&p.dmg_with_state, line),
        dmg: captures(&p.dmg, line),
    }
}

/// A captured text, trimmed; the empty text when the group is missing.
pub fn trimmed_group_text(groups: &Vec<Option<String>>, i: usize) -> (r: String)
    ensures
        r@ == trimmed_group(group(groups_view(groups@), i as int)),
{
    match group_text(groups, i) {
        Some(t) => trim_text(t.as_str()),
        None => String::new(),
    }
}

/// The damage a captured number stands for.
pub fn damage_amount_of(groups: &Vec<Option<String>>, i: usize) -> (r: i32)
    ensures
        r == damage_amount(group(groups_view(groups@), i as int)),
{
    match group_text(groups, i) {
        Some(t) => {
            proof {
                reveal_strlit(" ");
                reveal_strlit("");
                assert(""@ =~= Seq::<char>::empty());
            }
            let digits = replace_all_text(t.as_str(), " ", "");
            let v = match parse_i32_text(digits.as_str()) {
                Some(v) => v,
                None => 0,
            };
            abs_wrapping_i32(v)
        },
        None => 0,
    }
}


/// A knock-out line: a followed player who is knocked out ends the spell
/// being cast, then the knock-out is reported.
pub open spec fn ko_effect(m: CombatView, g: Seq<Option<Seq<char>>>, followed: Seq<Seq<char>>, now: u64) -> CombatView {
    match group(g, 1) {
        Some(t) => if followed.contains(trim(t)) {
            acted(pushed_spell(m, followed), trim(t), 0, "KO"@, None, now)
        } else {
            m
        },
        None => m,
    }
}

/// A revival line: the revival of a followed player is reported.
pub open spec fn revive_effect(m: CombatView, g: Seq<Option<Seq<char>>>, followed: Seq<Seq<char>>, now: u64) -> CombatView {
    match group(g, 1) {
        Some(t) => if followed.contains(trim(t)) {
            acted(m, trim(t), 0, "REVIVE"@, None, now)
        } else {
            m
        },
        None => m,
    }
}

/// Applies a knock-out line.
pub fn handle_ko(state: &mut AppState, groups: &Vec<Option<String>>, followers: &[String], now: u64)
    requires
        old(state)@.well_formed(),
    ensures
        final(state)@ == ko_effect(old(state)@, groups_view(groups@), names_view(followers@), now),
        final(state)@.well_formed(),
{
    match group_text(groups, 1) {
        Some(t) => {
            let p = trim_text(t.as_str());
            proof {
                lemma_contains_name(followers@, p@);
            }
            if contains_name(followers, p.as_str()) {
                state.push_current_spell_to_history(followers);
                state.process_action(p, 0, "KO".to_owned(), None, now);
            }
        },
        None => {},
    }
}

/// Applies a revival line.
pub fn handle_revive(state: &mut AppState, groups: &Vec<Option<String>>, followers: &[String], now: u64)
    requires
        old(state)@.well_formed(),
    ensures
        final(state)@ == revive_effect(old(state)@, groups_view(groups@), names_view(followers@), now),
        final(state)@.well_formed(),
{
    match group_text(groups, 1) {
        Some(t) => {
            let p = trim_text(t.as_str());
            proof {
                lemma_contains_name(followers@, p@);
            }
            if contains_name(followers, p.as_str()) {
                state.process_action(p, 0, "REVIVE".to_owned(), None, now);
            }
        },
        None => {},
    }
}

/// The summon named on an "Invoque" line: the text after the first
/// "Invoque" (up to a second one), trimmed, with "un(e)", then "un", then
/// "une" taken out, trimmed again.
pub open spec fn invocation_name(clean: Seq<char>) -> Seq<char> {
    let raw = trim(
        match second_segment(clean, "Invoque"@) {
            Some(t) => t,
            None => Seq::empty(),
        },
    );
    trim(
        replace_text(
            replace_text(replace_text(raw, "un(e)"@, Seq::empty()), "un"@, Seq::empty()),
            "une"@,
            Seq::empty(),
        ),
    )
}

/// A summoning line by a followed player: the Osamodas' Gobgob creature
/// waits for its name to be cast; any other summon is bound to its summoner.
pub open spec fn summon_effect(m: CombatView, clean: Seq<char>, g: Seq<Option<Seq<char>>>, followed: Seq<Seq<char>>) -> CombatView {
    let who = trimmed_group(group(g, 1));
    if !followed.contains(who) {
        m
    } else if contains_text(clean, "Invoque une cr\u{e9}ature du Gobgob"@) {
        CombatView { pending_summon_owner: Some(who), ..m }
    } else {
        let inv = invocation_name(clean);
        if inv.len() > 0 && !contains_text(lowercase_of(inv), "cr\u{e9}ature du gobgob"@) {
            CombatView { summon_to_owner: set_value(m.summon_to_owner, inv, who), ..m }
        } else {
            m
        }
    }
}

/// The name of the summon on an "Invoque" line.
pub fn invocation_name_text(clean: &str) -> (r: String)
    ensures
        r@ == invocation_name(clean@),
{
    proof {
        reveal_strlit("Invoque");
        reveal_strlit("un(e)");
        reveal_strlit("un");
        reveal_strlit("une");
        reveal_strlit("");
        assert(""@ =~= Seq::<char>::empty());
    }
    let raw = match second_segment_text(clean, "Invoque") {
        Some(t) => trim_text(t.as_str()),
        None => String::new(),
    };
    let a = replace_all_text(raw.as_str(), "un(e)", "");
    let b = replace_all_text(a.as_str(), "un", "");
    let c = replace_all_text(b.as_str(), "une", "");
    trim_text(c.as_str())
}

/// Binds `key` to `value` in a list of pairs.
pub fn set_pair(v: &mut Vec<(String, String)>, key: String, value: String)
    requires
        keys_unique(pairs_view(old(v)@)),
    ensures
        pairs_view(final(v)@) == set_value(pairs_view(old(v)@), key@, value@),
        keys_unique(pairs_view(final(v)@)),
{
    let ghost before = pairs_view(v@);
    proof {
        lemma_set_value_unique(before, key@, value@);
    }
    match find_key(v, key.as_str()) {
        Some(i) => {
            proof {
                assert(before[i as int].0 == key@);
                lemma_key_index(before, key@, i as int);
            }
            v.set(i, (key, value));
            assert(pairs_view(v@) =~= set_value(before, key@, value@));
        },
        None => {
            proof {
                assert(!has_key(before, key@)) by {
                    if has_key(before, key@) {
                        let j = choose|j: int| 0 <= j < before.len() && #[trigger] before[j].0 == key@;
                        assert(v@[j].0@ != key@);
                    }
                }
            }
            v.push((key, value));
            assert(pairs_view(v@) =~= set_value(before, key@, value@));
        },
    }
}

/// Applies a summoning line.
pub fn handle_summon(state: &mut AppState, clean: &str, groups: &Vec<Option<String>>, followers: &[String])
    requires
        old(state)@.well_formed(),
    ensures
        final(state)@ == summon_effect(old(state)@, clean@, groups_view(groups@), names_view(followers@)),
        final(state)@.well_formed(),
{
    let who = trimmed_group_text(groups, 1);
    proof {
        lemma_contains_name(followers@, who@);
    }
    if !contains_name(followers, who.as_str()) {
        return;
    }
    if contains(clean, "Invoque une cr\u{e9}ature du Gobgob") {
        state.pending_summon_owner = Some(who);
        assert(state@ =~= summon_effect(old(state)@, clean@, groups_view(groups@), names_view(followers@)));
        return;
    }
    let inv = invocation_name_text(clean);
    if inv.unicode_len() > 0 {
        let lowered = to_lowercase(inv.as_str());
        if !contains(lowered.as_str(), "cr\u{e9}ature du gobgob") {
            set_pair(&mut state.summon_to_owner, inv, who);
            assert(state@ =~= summon_effect(old(state)@, clean@, groups_view(groups@), names_view(followers@)));
        }
    }
}

/// A turn line: the turn report is counted, then the spell being cast, its
/// caster and its hits are forgotten.
pub open spec fn turn_effect(m: CombatView, now: u64) -> CombatView {
    let m1 = acted(m, "System"@, 0, "TURN"@, None, now);
    CombatView { current_hits: Seq::empty(), current_caster: None, current_spell: None, ..m1 }
}

/// Applies a turn line.
pub fn handle_turn(state: &mut AppState, now: u64)
    requires
        old(state)@.well_formed(),
    ensures
        final(state)@ == turn_effect(old(state)@, now),
        final(state)@.well_formed(),
{
    state.process_action("System".to_owned(), 0, "TURN".to_owned(), None, now);
    let ghost m1 = state@;
    state.current_hits.clear();
    state.current_caster = None;
    state.current_spell = None;
    assert(state@ =~= CombatView { current_hits: Seq::empty(), current_caster: None, current_spell: None, ..m1 });
}


/// A casting line: the previous spell is written to the history; a pending
/// Osamodas owner takes the caster when it is one of the Osamodas' summons;
/// the caster becomes the current one when it is followed or a known
/// summon, else nobody is.
pub open spec fn cast_effect(
    m: CombatView,
    g: Seq<Option<Seq<char>>>,
    followed: Seq<Seq<char>>,
    summons: Seq<Seq<char>>,
) -> CombatView {
    let m1 = pushed_spell(m, followed);
    let c = trimmed_group(group(g, 1));
    let sp = trimmed_group(group(g, 2));
    let m2 = match m1.pending_summon_owner {
        Some(owner) => if summons.contains(c) {
            CombatView {
                summon_to_owner: set_value(m1.summon_to_owner, c, owner),
                pending_summon_owner: None,
                ..m1
            }
        } else {
            m1
        },
        None => m1,
    };
    if followed.contains(c) || has_key(m2.summon_to_owner, c) {
        CombatView { current_caster: Some(c), current_spell: Some(sp), ..m2 }
    } else {
        CombatView { current_caster: None, current_spell: None, ..m2 }
    }
}

/// Applies a casting line.
pub fn handle_cast(state: &mut AppState, groups: &Vec<Option<String>>, followers: &[String], summons: &[String])
    requires
        old(state)@.well_formed(),
    ensures
        final(state)@ == cast_effect(old(state)@, groups_view(groups@), names_view(followers@), names_view(summons@)),
        final(state)@.well_formed(),
{
    state.push_current_spell_to_history(followers);
    let ghost m1 = state@;
    let c = trimmed_group_text(groups, 1);
    let sp = trimmed_group_text(groups, 2);
    proof {
        lemma_contains_name(followers@, c@);
        lemma_contains_name(summons@, c@);
    }
    match state.pending_summon_owner.clone() {
        Some(owner) => {
            if contains_name(summons, c.as_str()) {
                set_pair(&mut state.summon_to_owner, c.clone(), owner);
                state.pending_summon_owner = None;
            }
        },
        None => {},
    }
    let ghost m2 = state@;
    assert(m2 =~= (match m1.pending_summon_owner {
        Some(owner) => if names_view(summons@).contains(c@) {
            CombatView {
                summon_to_owner: set_value(m1.summon_to_owner, c@, owner),
                pending_summon_owner: None,
                ..m1
            }
        } else {
            m1
        },
        None => m1,
    }));
    let known_summon = match find_key(&state.summon_to_owner, c.as_str()) {
        Some(i) => {
            assert(pairs_view(state.summon_to_owner@)[i as int].0 == c@);
            true
        },
        None => false,
    };
    proof {
        let sv = pairs_view(state.summon_to_owner@);
        if has_key(sv, c@) {
            let j = choose|j: int| 0 <= j < sv.len() && #[trigger] sv[j].0 == c@;
            assert(state.summon_to_owner@[j].0@ == c@);
        }
    }
    if contains_name(followers, c.as_str()) || known_summon {
        state.current_caster = Some(c);
        state.current_spell = Some(sp);
    } else {
        state.current_caster = None;
        state.current_spell = None;
    }
    assert(state@ =~= cast_effect(old(state)@, groups_view(groups@), names_view(followers@), names_view(summons@)));
}

/// A state line: an effect that the current followed caster puts on a
/// target that is not followed is bound, under its lower-case name, to its
/// name, the caster and the turn (a later binding replaces an earlier one).
pub open spec fn state_apply_effect(m: CombatView, g: Seq<Option<Seq<char>>>, followed: Seq<Seq<char>>) -> CombatView {
    let target = trimmed_group(group(g, 1));
    let name = trimmed_group(group(g, 2));
    match m.current_caster {
        Some(c) => if followed.contains(c) && !followed.contains(target) {
            CombatView {
                state_to_caster: set_value(m.state_to_caster, lowercase_of(name), (name, c, m.current_turn)),
                ..m
            }
        } else {
            m
        },
        None => m,
    }
}

/// Binds an effect key to its origin.
pub fn set_origin(v: &mut Vec<(String, (String, String, i32))>, key: String, origin: (String, String, i32))
    requires
        keys_unique(origins_view(old(v)@)),
    ensures
        origins_view(final(v)@) == set_value(origins_view(old(v)@), key@, (origin.0@, origin.1@, origin.2)),
        keys_unique(origins_view(final(v)@)),
{
    let ghost before = origins_view(v@);
    let ghost ov = (origin.0@, origin.1@, origin.2);
    proof {
        lemma_set_value_unique(before, key@, ov);
    }
    match find_key(v, key.as_str()) {
        Some(i) => {
            proof {
                assert(before[i as int].0 == key@);
                lemma_key_index(before, key@, i as int);
            }
            v.set(i, (key, origin));
            assert(origins_view(v@) =~= set_value(before, key@, ov));
        },
        None => {
            proof {
                assert(!has_key(before, key@)) by {
                    if has_key(before, key@) {
                        let j = choose|j: int| 0 <= j < before.len() && #[trigger] before[j].0 == key@;
                        assert(v@[j].0@ != key@);
                    }
                }
            }
            v.push((key, origin));
            assert(origins_view(v@) =~= set_value(before, key@, ov));
        },
    }
}

/// Applies a state line.
pub fn handle_state_apply(state: &mut AppState, groups: &Vec<Option<String>>, followers: &[String])
    requires
        old(state)@.well_formed(),
    ensures
        final(state)@ == state_apply_effect(old(state)@, groups_view(groups@), names_view(followers@)),
        final(state)@.well_formed(),
{
    let target = trimmed_group_text(groups, 1);
    let name = trimmed_group_text(groups, 2);
    match state.current_caster.clone() {
        Some(c) => {
            proof {
                lemma_contains_name(followers@, c@);
                lemma_contains_name(followers@, target@);
            }
            if contains_name(followers, c.as_str()) && !contains_name(followers, target.as_str()) {
                let key = to_lowercase(name.as_str());
                let turn = state.current_turn;
                set_origin(&mut state.state_to_caster, key, (name, c, turn));
                assert(state@ =~= state_apply_effect(old(state)@, groups_view(groups@), names_view(followers@)));
            }
        },
        None => {},
    }
}


/// The effect named on a damage-with-state line, in lower case (the empty
/// text when the group is missing).
pub open spec fn state_ref(g: Seq<Option<Seq<char>>>) -> Seq<char> {
    match group(g, 3) {
        Some(t) => lowercase_of(trim(t)),
        None => Seq::empty(),
    }
}

/// Position of the first bound effect, at or after `i`, whose key occurs in
/// `lowered`, or -1.
pub open spec fn first_origin_from(
    origins: Seq<(Seq<char>, (Seq<char>, Seq<char>, i32))>,
    lowered: Seq<char>,
    i: nat,
) -> int
    decreases origins.len() - i,
{
    if i >= origins.len() {
        -1
    } else if contains_text(lowered, origins[i as int].0) {
        i as int
    } else {
        first_origin_from(origins, lowered, i + 1)
    }
}

/// The owner of the current caster when the caster is a known summon.
pub open spec fn summon_owner(m: CombatView) -> Option<Seq<char>> {
    match m.current_caster {
        Some(c) => lookup(m.summon_to_owner, c),
        None => None,
    }
}

/// A hit on a line that names the effect `state_ref(g)`, when that effect is
/// known: indirect damage of the effect's author, whose turn is refreshed.
pub open spec fn named_effect_hit(m: CombatView, g: Seq<Option<Seq<char>>>, now: u64) -> CombatView {
    let r = state_ref(g);
    let o = m.state_to_caster[key_index(m.state_to_caster, r)].1;
    acted(
        CombatView { state_to_caster: set_value(m.state_to_caster, r, (o.0, o.1, m.current_turn)), ..m },
        o.1,
        damage_amount(group(g, 2)),
        "INDIRECT"@,
        Some(o.0),
        now,
    )
}

/// A hit on a line that mentions the known effect at position `k`: indirect
/// damage of that effect's author, whose turn is refreshed.
pub open spec fn mentioned_effect_hit(m: CombatView, k: int, g: Seq<Option<Seq<char>>>, now: u64) -> CombatView {
    let e = m.state_to_caster[k];
    acted(
        CombatView { state_to_caster: m.state_to_caster.update(k, (e.0, (e.1.0, e.1.1, m.current_turn))), ..m },
        e.1.1,
        damage_amount(group(g, 1)),
        "INDIRECT"@,
        Some(e.1.0),
        now,
    )
}

/// A hit of the current caster, when it is followed: direct damage.
pub open spec fn direct_line_hit(m: CombatView, g: Seq<Option<Seq<char>>>, followed: Seq<Seq<char>>, now: u64) -> CombatView {
    match m.current_caster {
        Some(c) => if followed.contains(c) {
            acted(m, c, damage_amount(group(g, 1)), "DMG"@, m.current_spell, now)
        } else {
            m
        },
        None => m,
    }
}

/// A line with lost health points of a target that is not followed. In this
/// order of priority: a hit of a known summon is credited to its owner; a
/// hit that names a known effect is indirect damage of the effect's author;
/// a hit on a line that mentions a known effect is indirect damage of the
/// first such effect's author; else the hit is direct damage of the current
/// followed caster.
pub open spec fn damage_effect(
    m: CombatView,
    clean: Seq<char>,
    mv: MatchesView,
    followed: Seq<Seq<char>>,
    now: u64,
) -> CombatView {
    if followed.contains(trim(first_segment(clean, ":"@))) {
        m
    } else {
        match (summon_owner(m), mv.dmg) {
            (Some(owner), Some(g)) => acted(m, owner, damage_amount(group(g, 1)), "SUMMON"@, m.current_spell, now),
            _ => {
                let named = match mv.dmg_with_state {
                    Some(g) => has_key(m.state_to_caster, state_ref(g)),
                    None => false,
                };
                if named {
                    named_effect_hit(m, match mv.dmg_with_state { Some(g) => g, None => Seq::empty() }, now)
                } else {
                    match mv.dmg {
                        Some(g) => {
                            let k = first_origin_from(m.state_to_caster, lowercase_of(clean), 0);
                            if k >= 0 {
                                mentioned_effect_hit(m, k, g, now)
                            } else {
                                direct_line_hit(m, g, followed, now)
                            }
                        },
                        None => m,
                    }
                }
            },
        }
    }
}

proof fn lemma_first_origin_bounds(
    origins: Seq<(Seq<char>, (Seq<char>, Seq<char>, i32))>,
    lowered: Seq<char>,
    i: nat,
)
    ensures
        first_origin_from(origins, lowered, i) < origins.len(),
        first_origin_from(origins, lowered, i) >= -1,
    decreases origins.len() - i,
{
    if i < origins.len() && !contains_text(lowered, origins[i as int].0) {
        lemma_first_origin_bounds(origins, lowered, i + 1);
    }
}

/// The owner of the current caster when the caster is a known summon.
pub fn summon_owner_of(state: &AppState) -> (r: Option<String>)
    requires
        state@.well_formed(),
    ensures
        opt_view(r) == summon_owner(state@),
{
    match &state.current_caster {
        Some(c) => match find_key(&state.summon_to_owner, c.as_str()) {
            Some(i) => {
                proof {
                    lemma_key_index(pairs_view(state.summon_to_owner@), c@, i as int);
                }
                Some(state.summon_to_owner[i].1.clone())
            },
            None => {
                proof {
                    let sv = pairs_view(state.summon_to_owner@);
                    if has_key(sv, c@) {
                        let j = choose|j: int| 0 <= j < sv.len() && #[trigger] sv[j].0 == c@;
                        assert(state.summon_to_owner@[j].0@ == c@);
                    }
                }
                None
            },
        },
        None => None,
    }
}

/// Credits a hit to the known effect that the line names, if there is one.
pub fn credit_named_effect(state: &mut AppState, g: &Vec<Option<String>>, now: u64) -> (done: bool)
    requires
        old(state)@.well_formed(),
    ensures
        done == has_key(old(state)@.state_to_caster, state_ref(groups_view(g@))),
        done ==> final(state)@ == named_effect_hit(old(state)@, groups_view(g@), now),
        !done ==> final(state)@ == old(state)@,
        final(state)@.well_formed(),
{
    let r = match group_text(g, 3) {
        Some(t) => {
            let tt = trim_text(t.as_str());
            to_lowercase(tt.as_str())
        },
        None => String::new(),
    };
    let ghost sv = origins_view(state.state_to_caster@);
    match find_key(&state.state_to_caster, r.as_str()) {
        Some(i) => {
            proof {
                lemma_key_index(sv, r@, i as int);
            }
            let ghost m0 = state@;
            let val = damage_amount_of(g, 2);
            let orig = state.state_to_caster[i].1.0.clone();
            let caster_name = state.state_to_caster[i].1.1.clone();
            let cur_t = state.current_turn;
            state.state_to_caster[i].1.2 = cur_t;
            proof {
                assert(origins_view(state.state_to_caster@) =~= set_value(sv, r@, (orig@, caster_name@, cur_t)));
                lemma_set_value_unique(sv, r@, (orig@, caster_name@, cur_t));
                assert(state@ =~= CombatView {
                    state_to_caster: set_value(m0.state_to_caster, r@, (orig@, caster_name@, cur_t)),
                    ..m0
                });
            }
            state.process_action(caster_name, val, "INDIRECT".to_owned(), Some(orig), now);
            true
        },
        None => {
            proof {
                if has_key(sv, r@) {
                    let j = choose|j: int| 0 <= j < sv.len() && #[trigger] sv[j].0 == r@;
                    assert(state.state_to_caster@[j].0@ == r@);
                }
            }
            false
        },
    }
}

/// Credits a hit to the first known effect that the line mentions, if any.
pub fn credit_mentioned_effect(state: &mut AppState, clean: &str, g: &Vec<Option<String>>, now: u64) -> (done: bool)
    requires
        old(state)@.well_formed(),
    ensures
        done == (first_origin_from(old(state)@.state_to_caster, lowercase_of(clean@), 0) >= 0),
        done ==> final(state)@ == mentioned_effect_hit(
            old(state)@,
            first_origin_from(old(state)@.state_to_caster, lowercase_of(clean@), 0),
            groups_view(g@),
            now,
        ),
        !done ==> final(state)@ == old(state)@,
        final(state)@.well_formed(),
{
    let lowered = to_lowercase(clean);
    let ghost sv = origins_view(state.state_to_caster@);
    let n = state.state_to_caster.len();
    let mut i: usize = 0;
    while i < n
        invariant
            n == state.state_to_caster@.len(),
            sv == origins_view(state.state_to_caster@),
            i <= n,
            first_origin_from(sv, lowered@, 0) == first_origin_from(sv, lowered@, i as nat),
        ensures
            i <= n,
            first_origin_from(sv, lowered@, 0) == first_origin_from(sv, lowered@, i as nat),
            i < n ==> contains_text(lowered@, sv[i as int].0),
        decreases n - i,
    {
        if contains(lowered.as_str(), state.state_to_caster[i].0.as_str()) {
            assert(sv[i as int].0 == state.state_to_caster@[i as int].0@);
            break;
        }
        i = i + 1;
    }
    proof {
        lemma_first_origin_bounds(sv, lowered@, 0);
    }
    if i < n {
        let ghost m0 = state@;
        let val = damage_amount_of(g, 1);
        let orig = state.state_to_caster[i].1.0.clone();
        let caster_name = state.state_to_caster[i].1.1.clone();
        let cur_t = state.current_turn;
        state.state_to_caster[i].1.2 = cur_t;
        let ghost e = sv[i as int];
        proof {
            assert(origins_view(state.state_to_caster@) =~= sv.update(i as int, (e.0, (e.1.0, e.1.1, cur_t))));
            let nv = origins_view(state.state_to_caster@);
            assert forall|a: int, b: int| 0 <= a < nv.len() && 0 <= b < nv.len() && a != b implies #[trigger] nv[a].0 != #[trigger] nv[b].0 by {
                assert(nv[a].0 == sv[a].0);
                assert(nv[b].0 == sv[b].0);
            }
            assert(state@ =~= CombatView {
                state_to_caster: m0.state_to_caster.update(i as int, (e.0, (e.1.0, e.1.1, cur_t))),
                ..m0
            });
        }
        state.process_action(caster_name, val, "INDIRECT".to_owned(), Some(orig), now);
        true
    } else {
        false
    }
}

/// Credits a hit to the current caster when it is followed.
pub fn credit_direct(state: &mut AppState, g: &Vec<Option<String>>, followers: &[String], now: u64)
    requires
        old(state)@.well_formed(),
    ensures
        final(state)@ == direct_line_hit(old(state)@, groups_view(g@), names_view(followers@), now),
        final(state)@.well_formed(),
{
    match state.current_caster.clone() {
        Some(c) => {
            proof {
                lemma_contains_name(followers@, c@);
            }
            if contains_name(followers, c.as_str()) {
                let val = damage_amount_of(g, 1);
                let spell_temp = state.current_spell.clone();
                state.process_action(c, val, "DMG".to_owned(), spell_temp, now);
            }
        },
        None => {},
    }
}

/// Applies a line of lost health points.
pub fn handle_damage(state: &mut AppState, clean: &str, matches: &LineMatches, followers: &[String], now: u64)
    requires
        old(state)@.well_formed(),
    ensures
        final(state)@ == damage_effect(old(state)@, clean@, matches@, names_view(followers@), now),
        final(state)@.well_formed(),
{
    proof {
        reveal_strlit(":");
    }
    let first = first_segment_text(clean, ":");
    let target = trim_text(first.as_str());
    proof {
        lemma_contains_name(followers@, target@);
    }
    if contains_name(followers, target.as_str()) {
        return;
    }
    match (summon_owner_of(state), &matches.dmg) {
        (Some(owner), Some(g)) => {
            let val = damage_amount_of(g, 1);
            let spell_temp = state.current_spell.clone();
            state.process_action(owner, val, "SUMMON".to_owned(), spell_temp, now);
            return;
        },
        _ => {},
    }
    match &matches.dmg_with_state {
        Some(g) => {
            if credit_named_effect(state, g, now) {
                return;
            }
        },
        None => {},
    }
    match &matches.dmg {
        Some(g) => {
            if credit_mentioned_effect(state, clean, g, now) {
                return;
            }
            credit_direct(state, g, followers, now);
        },
        None => {},
    }
}


/// What one clean combat line does to the state. The kinds are tried in
/// this order: knock-out, revival, summoning, turn report, spell cast, state
/// put on a target, lost health points; an empty line does nothing.
pub open spec fn line_effect(
    m: CombatView,
    clean: Seq<char>,
    mv: MatchesView,
    followed: Seq<Seq<char>>,
    summons: Seq<Seq<char>>,
    now: u64,
) -> CombatView {
    if clean.len() == 0 {
        m
    } else if let Some(g) = mv.ko {
        ko_effect(m, g, followed, now)
    } else if let Some(g) = mv.revive {
        revive_effect(m, g, followed, now)
    } else if let Some(g) = mv.summon {
        summon_effect(m, clean, g, followed)
    } else if mv.turn is Some {
        turn_effect(m, now)
    } else if let Some(g) = mv.cast {
        cast_effect(m, g, followed, summons)
    } else if let Some(g) = mv.state_apply {
        state_apply_effect(m, g, followed)
    } else if contains_text(clean, "PV"@) {
        damage_effect(m, clean, mv, followed, now)
    } else {
        m
    }
}

/// Applies one clean combat line, given what each line expression captures
/// on it, at time `now`. `followers` are the followed players, `summons` the
/// creatures that an Osamodas' Gobgob summoning can bring.
pub fn apply_log_line(
    state: &mut AppState,
    clean: &str,
    matches: &LineMatches,
    followers: &[String],
    summons: &[String],
    now: u64,
)
    requires
        old(state)@.well_formed(),
    ensures
        final(state)@ == line_effect(old(state)@, clean@, matches@, names_view(followers@), names_view(summons@), now),
        final(state)@.well_formed(),
{
    if clean.unicode_len() == 0 {
        return;
    }
    if let Some(g) = &matches.ko {
        handle_ko(state, g, followers, now);
    } else if let Some(g) = &matches.revive {
        handle_revive(state, g, followers, now);
    } else if let Some(g) = &matches.summon {
        handle_summon(state, clean, g, followers);
    } else if matches.turn.is_some() {
        handle_turn(state, now);
    } else if let Some(g) = &matches.cast {
        handle_cast(state, g, followers, summons);
    } else if let Some(g) = &matches.state_apply {
        handle_state_apply(state, g, followers);
    } else if contains(clean, "PV") {
        handle_damage(state, clean, matches, followers, now);
    }
}

/// Reads one raw log line at time `now`: it is cleaned, then every line
/// expression of `patterns` is tried on it, then `apply_log_line`.
pub fn process_line(
    state: &mut AppState,
    patterns: &LogPatterns,
    raw_line: &str,
    followers: &[String],
    summons: &[String],
    now: u64,
)
    requires
        old(state)@.well_formed(),
    ensures
        final(state)@ == line_effect(
            old(state)@,
            normalized(raw_line@),
            matches_of(*patterns, normalized(raw_line@)),
            names_view(followers@),
            names_view(summons@),
            now,
        ),
        final(state)@.well_formed(),
{
    let clean = normalize_combat_only(raw_line);
    if clean.unicode_len() == 0 {
        return;
    }
    let matches = match_line(patterns, clean.as_str());
    apply_log_line(state, clean.as_str(), &matches, followers, summons, now);
}

/// The followed players as the log reader uses them: trimmed, the blank
/// ones left out.
pub open spec fn active_names(names: Seq<Seq<char>>) -> Seq<Seq<char>>
    decreases names.len(),
{
    if names.len() == 0 {
        Seq::empty()
    } else if trim(names.last()).len() == 0 {
        active_names(names.drop_last())
    } else {
        active_names(names.drop_last()).push(trim(names.last()))
    }
}

/// The followed players, trimmed, without the blank ones.
pub fn active_tracked_players(names: &Vec<String>) -> (r: Vec<String>)
    ensures
        names_view(r@) == active_names(names_view(names@)),
{
    let mut r: Vec<String> = Vec::new();
    let mut i: usize = 0;
    while i < names.len()
        invariant
            i <= names@.len(),
            names_view(r@) == active_names(names_view(names@.take(i as int))),
        decreases names@.len() - i,
    {
        let t = trim_text(names[i].as_str());
        proof {
            assert(names_view(names@.take(i + 1)).drop_last() =~= names_view(names@.take(i as int)));
            assert(names_view(names@.take(i + 1)).last() == names@[i as int]@);
        }
        if t.unicode_len() > 0 {
            let ghost before = names_view(r@);
            r.push(t);
            assert(names_view(r@) =~= before.push(t@));
        }
        i = i + 1;
    }
    assert(names@.take(names@.len() as int) =~= names@);
    r
}

} // verus!
