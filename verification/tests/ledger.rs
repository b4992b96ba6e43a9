use wakfu_calculateur::actions::{push_entry_for, sum_hits};
use wakfu_calculateur::controls::expected_turn_reports;
use wakfu_calculateur::degats_directs::appliquer_degat_direct;
use wakfu_calculateur::degats_indirects::{appliquer_degat_indirect, enregistrer_etat_indirect};
use wakfu_calculateur::degats_invocations::appliquer_degat_invocation;
use wakfu_calculateur::ledger::{add_to_total, mark_name, record_hit_in, record_summon_hit_in};
use wakfu_calculateur::model::{AppConfig, AppState, SpellEntry};

fn state(mode: &str, players: i32) -> AppState {
    let mut c = AppConfig::default();
    c.mode = mode.to_string();
    c.players_to_include = players;
    AppState::new(c)
}

fn total_of(s: &AppState, who: &str) -> Option<i32> {
    s.total_damage.iter().find(|(n, _)| n == who).map(|(_, v)| *v)
}

fn entries_of<'a>(s: &'a AppState, who: &str) -> &'a [SpellEntry] {
    s.history.iter().find(|(n, _)| n == who).map(|(_, e)| e.as_slice()).unwrap_or(&[])
}

fn entry(spell: &str, hits: &[i32], turn: i32, indirect: bool) -> SpellEntry {
    SpellEntry {
        spell: spell.to_string(),
        hits: hits.to_vec(),
        total: hits.iter().sum(),
        turn,
        is_indirect: indirect,
    }
}

#[test]
fn new_state_starts_at_turn_one_with_settings() {
    let mut c = AppConfig::default();
    c.combat_counter = 7;
    c.mode = "multi".to_string();
    c.players_to_include = 3;
    let s = AppState::new(c);
    assert_eq!(s.current_turn, 1);
    assert_eq!(s.tour_reports_seen, 0);
    assert_eq!(s.combat_counter, 7);
    assert_eq!(s.mode, "multi");
    assert_eq!(s.players_to_include, 3);
    assert!(s.total_damage.is_empty() && s.history.is_empty() && s.archives.is_empty());
}

#[test]
fn default_settings() {
    let c = AppConfig::default();
    assert_eq!(c.mode, "mono");
    assert_eq!(c.players_to_include, 1);
    assert_eq!(c.combat_counter, 1);
    assert!(c.always_on_top);
    assert_eq!(c.text_color, [200, 200, 200]);
    assert!(c.history_horizontal);
    assert!(!c.maj_disponible && !c.maj_prete_pour_redemarrage);
    assert!(c.tracked_players.is_empty() && c.permanent_archives.is_empty());
}

#[test]
fn direct_damage_merges_only_with_last_same_entry() {
    let mut s = state("mono", 1);
    appliquer_degat_direct(&mut s, "Toto".to_string(), "Fulgur".to_string(), 10);
    appliquer_degat_direct(&mut s, "Toto".to_string(), "Fulgur".to_string(), 5);
    appliquer_degat_direct(&mut s, "Toto".to_string(), "Éclair".to_string(), 7);
    appliquer_degat_direct(&mut s, "Toto".to_string(), "Fulgur".to_string(), 1);
    assert_eq!(total_of(&s, "Toto"), Some(23));
    let es = entries_of(&s, "Toto");
    assert_eq!(es.len(), 3);
    assert_eq!(es[0].hits, vec![10, 5]);
    assert_eq!(es[0].total, 15);
    assert_eq!(es[1].spell, "Éclair");
    assert_eq!(es[2].hits, vec![1]);
    assert_eq!(s.visible_players, vec!["Toto".to_string()]);
}

#[test]
fn indirect_damage_does_not_join_a_direct_entry() {
    let mut s = state("mono", 1);
    appliquer_degat_direct(&mut s, "Toto".to_string(), "Poison".to_string(), 10);
    appliquer_degat_indirect(&mut s, "Toto".to_string(), "Poison".to_string(), 4);
    appliquer_degat_indirect(&mut s, "Toto".to_string(), "Poison".to_string(), 6);
    let es = entries_of(&s, "Toto");
    assert_eq!(es.len(), 2);
    assert!(!es[0].is_indirect);
    assert!(es[1].is_indirect);
    assert_eq!(es[1].hits, vec![4, 6]);
    assert_eq!(total_of(&s, "Toto"), Some(20));
}

#[test]
fn summon_damage_joins_any_entry_of_its_spell_this_turn() {
    let mut s = state("mono", 1);
    appliquer_degat_invocation(&mut s, "Osa".to_string(), "Morsure".to_string(), 3);
    appliquer_degat_direct(&mut s, "Osa".to_string(), "Fouet".to_string(), 8);
    appliquer_degat_invocation(&mut s, "Osa".to_string(), "Morsure".to_string(), 4);
    let es = entries_of(&s, "Osa");
    assert_eq!(es.len(), 2);
    assert_eq!(es[0].spell, "Morsure [Invoc]");
    assert_eq!(es[0].hits, vec![3, 4]);
    assert_eq!(es[0].total, 7);
    assert_eq!(total_of(&s, "Osa"), Some(15));
}

#[test]
fn effect_keeps_its_first_author() {
    let mut s = state("mono", 1);
    enregistrer_etat_indirect(&mut s, " Brûlure ".to_string(), "Flamme".to_string(), "Toto".to_string(), 1);
    enregistrer_etat_indirect(&mut s, "BRÛLURE".to_string(), "Autre".to_string(), "Titi".to_string(), 3);
    assert_eq!(s.state_to_caster.len(), 1);
    assert_eq!(s.state_to_caster[0].0, "brûlure");
    assert_eq!(s.state_to_caster[0].1, ("Flamme".to_string(), "Toto".to_string(), 1));
}

#[test]
fn event_kinds_without_a_spell_use_default_names() {
    let mut s = state("mono", 1);
    s.process_action("Toto".to_string(), 5, "DMG".to_string(), None, 0);
    s.process_action("Toto".to_string(), 6, "INDIRECT".to_string(), None, 0);
    s.process_action("Toto".to_string(), 7, "SUMMON".to_string(), None, 0);
    s.process_action("Toto".to_string(), 8, "AUTRE".to_string(), None, 0);
    let es = entries_of(&s, "Toto");
    assert_eq!(es.len(), 3);
    assert_eq!(es[0].spell, "Sort Direct");
    assert_eq!(es[1].spell, "Sort Indirect");
    assert_eq!(es[2].spell, "Attaque d'invocation [Invoc]");
    assert_eq!(total_of(&s, "Toto"), Some(18));
}

#[test]
fn ko_then_revive_and_turn_counting() {
    let mut s = state("mono", 2);
    assert_eq!(expected_turn_reports(&s), 2);
    s.apply_final_stats("Toto".to_string(), 0, "KO".to_string(), None);
    s.apply_final_stats("Toto".to_string(), 0, "KO".to_string(), None);
    assert_eq!(s.ko_players, vec!["Toto".to_string()]);
    assert_eq!(expected_turn_reports(&s), 1);
    s.apply_final_stats("System".to_string(), 0, "TURN".to_string(), None);
    assert_eq!(s.current_turn, 2);
    s.apply_final_stats("Toto".to_string(), 0, "REVIVE".to_string(), None);
    assert!(s.ko_players.is_empty());
    s.apply_final_stats("Toto".to_string(), 0, "REVIVE".to_string(), None);
    assert!(s.ko_players.is_empty());
    s.apply_final_stats("System".to_string(), 0, "TURN".to_string(), None);
    assert_eq!(s.current_turn, 2);
    assert_eq!(s.tour_reports_seen, 1);
}

#[test]
fn more_knocked_out_than_players_still_needs_one_report() {
    let mut s = state("mono", 1);
    s.apply_final_stats("A".to_string(), 0, "KO".to_string(), None);
    s.apply_final_stats("B".to_string(), 0, "KO".to_string(), None);
    assert_eq!(expected_turn_reports(&s), 1);
    s.apply_final_stats("System".to_string(), 0, "TURN".to_string(), None);
    assert_eq!(s.current_turn, 2);
}

#[test]
fn multi_mode_counts_a_twin_once_and_mono_counts_both() {
    let mut m = state("multi", 2);
    m.process_action("Toto".to_string(), 50, "DMG".to_string(), Some("Fulgur".to_string()), 10);
    m.process_action("Toto".to_string(), 50, "DMG".to_string(), Some("Fulgur".to_string()), 20);
    assert_eq!(total_of(&m, "Toto"), Some(50));
    assert!(m.multi_buffer.is_empty());
    m.process_action("Toto".to_string(), 50, "DMG".to_string(), Some("Autre".to_string()), 30);
    assert_eq!(total_of(&m, "Toto"), Some(100));
    let mut s = state("mono", 1);
    s.process_action("Toto".to_string(), 50, "DMG".to_string(), Some("Fulgur".to_string()), 10);
    s.process_action("Toto".to_string(), 50, "DMG".to_string(), Some("Fulgur".to_string()), 20);
    assert_eq!(total_of(&s, "Toto"), Some(100));
    assert!(s.multi_buffer.is_empty());
}

#[test]
fn buffered_event_records_its_arrival() {
    let mut m = state("multi", 2);
    m.process_action("Toto".to_string(), 0, "KO".to_string(), None, 42);
    assert_eq!(m.multi_buffer.len(), 1);
    let b = &m.multi_buffer[0].1;
    assert_eq!(b.time, Some(42));
    assert_eq!(b.source, "Toto");
    assert_eq!(b.action_type, "KO");
    assert_eq!(b.value, 0);
    assert_eq!(b.spell_name, None);
    assert_eq!(m.ko_players, vec!["Toto".to_string()]);
}

#[test]
fn timeouts_keep_fresh_events_in_order() {
    let mut m = state("multi", 2);
    m.process_action("A".to_string(), 1, "DMG".to_string(), None, 0);
    m.process_action("B".to_string(), 2, "DMG".to_string(), None, 1_000_000_000);
    m.process_action("C".to_string(), 3, "DMG".to_string(), None, 2_000_000_000);
    m.check_multi_buffer_timeouts(2_000_000_000);
    let kept: Vec<&str> = m.multi_buffer.iter().map(|(_, e)| e.source.as_str()).collect();
    assert_eq!(kept, vec!["B", "C"]);
    m.check_multi_buffer_timeouts(2_000_000_000);
    assert_eq!(m.multi_buffer.len(), 2);
    m.check_multi_buffer_timeouts(5);
    assert_eq!(m.multi_buffer.len(), 2);
    let mut s = state("mono", 1);
    s.process_action("A".to_string(), 1, "DMG".to_string(), None, 0);
    s.check_multi_buffer_timeouts(u64::MAX);
    assert_eq!(total_of(&s, "A"), Some(1));
}

#[test]
fn pending_spell_is_written_for_a_followed_caster() {
    let mut s = state("mono", 1);
    s.current_caster = Some("Toto".to_string());
    s.current_spell = None;
    s.current_hits = vec![3, 4];
    s.push_current_spell_to_history(&["Titi".to_string()]);
    assert!(s.history.is_empty());
    assert!(s.current_hits.is_empty());
    s.current_hits = vec![3, 4];
    s.current_spell = Some("Fulgur".to_string());
    s.push_current_spell_to_history(&["Toto".to_string()]);
    let es = entries_of(&s, "Toto");
    assert_eq!(es.len(), 1);
    assert_eq!(es[0].spell, "Fulgur");
    assert_eq!(es[0].total, 7);
    assert_eq!(s.current_spell, None);
    s.current_hits = vec![1];
    s.push_current_spell_to_history(&[]);
    let es = entries_of(&s, "Toto");
    assert_eq!(es[1].spell, "Sort Direct");
}

#[test]
fn sums_wrap_as_an_optimised_build() {
    assert_eq!(sum_hits(&vec![]), 0);
    assert_eq!(sum_hits(&vec![1, 2, 3]), 6);
    assert_eq!(sum_hits(&vec![i32::MAX, 1]), i32::MIN);
    let mut t = vec![("A".to_string(), i32::MAX)];
    add_to_total(&mut t, &"A".to_string(), 2);
    assert_eq!(t[0].1, i32::MIN + 1);
    add_to_total(&mut t, &"B".to_string(), 5);
    assert_eq!(t[1], ("B".to_string(), 5));
}

#[test]
fn names_are_marked_once() {
    let mut v = vec!["A".to_string()];
    mark_name(&mut v, &"A".to_string());
    mark_name(&mut v, &"B".to_string());
    assert_eq!(v, vec!["A".to_string(), "B".to_string()]);
}

#[test]
fn entries_record_hits() {
    let mut es: Vec<SpellEntry> = Vec::new();
    record_hit_in(&mut es, "X".to_string(), 1, 2, false);
    record_hit_in(&mut es, "X".to_string(), 1, 3, false);
    record_hit_in(&mut es, "X".to_string(), 2, 4, false);
    assert_eq!(es.len(), 2);
    assert_eq!(es[0].hits, vec![2, 3]);
    record_summon_hit_in(&mut es, "X".to_string(), 1, 5);
    assert_eq!(es[0].hits, vec![2, 3, 5]);
    assert_eq!(es[0].total, 10);
    let mut h: Vec<(String, Vec<SpellEntry>)> = Vec::new();
    push_entry_for(&mut h, &"P".to_string(), entry("S", &[1], 1, false));
    push_entry_for(&mut h, &"P".to_string(), entry("T", &[2], 1, true));
    assert_eq!(h.len(), 1);
    assert_eq!(h[0].1.len(), 2);
}
