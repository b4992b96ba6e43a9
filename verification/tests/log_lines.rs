use wakfu_calculateur::combat_log::{active_tracked_players, match_line, process_line};
use wakfu_calculateur::model::{AppConfig, AppState, SpellEntry};
use wakfu_calculateur::parser::{create_regex_patterns, normalize_combat_only, LogPatterns};
use wakfu_calculateur::recap::{spell_recap, turn_breakdown};
use wakfu_calculateur::stats::player_spell_totals;

fn config(mode: &str, players: i32, followed: &[&str]) -> AppConfig {
    let mut c = AppConfig::default();
    c.mode = mode.to_string();
    c.players_to_include = players;
    c.tracked_players = followed.iter().map(|s| s.to_string()).collect();
    c
}

fn patterns() -> LogPatterns {
    create_regex_patterns().expect("the standard expressions compile")
}

fn feed(s: &mut AppState, p: &LogPatterns, followers: &[String], lines: &[&str], now: u64) {
    for l in lines {
        process_line(s, p, l, followers, &[], now);
    }
}

fn total_of(s: &AppState, who: &str) -> Option<i32> {
    s.total_damage.iter().find(|(n, _)| n == who).map(|(_, v)| *v)
}

fn entries_of<'a>(s: &'a AppState, who: &str) -> &'a [SpellEntry] {
    s.history.iter().find(|(n, _)| n == who).map(|(_, e)| e.as_slice()).unwrap_or(&[])
}

fn names(v: &[&str]) -> Vec<String> {
    v.iter().map(|s| s.to_string()).collect()
}

#[test]
fn normalize_strips_time_and_channel() {
    assert_eq!(
        normalize_combat_only("[12:34:56,789] INFO [Information (combat)]   Toto lance le sort Fulgur  "),
        "Toto lance le sort Fulgur"
    );
    assert_eq!(normalize_combat_only("  12:00:01,002 Bonjour "), "Bonjour");
    assert_eq!(normalize_combat_only("Sans canal"), "Sans canal");
    assert_eq!(normalize_combat_only("[Information (combat)] A\u{202F}: -5 PV"), "A : -5 PV");
    assert_eq!(normalize_combat_only(""), "");
}

#[test]
fn patterns_recognise_each_kind_of_line() {
    let p = patterns();
    let m = match_line(&p, "Toto est KO !");
    assert!(m.ko.is_some());
    let m = match_line(&p, "Toto est ressuscité !");
    assert!(m.revive.is_some() && m.ko.is_none());
    let m = match_line(&p, "Toto lance le sort Fulgur");
    let g = m.cast.expect("a cast");
    assert_eq!(g[1].as_deref(), Some("Toto"));
    assert_eq!(g[2].as_deref(), Some("Fulgur"));
    let m = match_line(&p, "Toto: 2 secondes reportées pour le tour suivant.");
    assert!(m.turn.is_some());
    let m = match_line(&p, "Bouftou: Intoxiqué (Niv. 3)");
    assert!(m.state_apply.is_some());
    let m = match_line(&p, "Bouftou: -40 PV (Intoxiqué)");
    let g = m.dmg_with_state.expect("a hit with a state");
    assert_eq!(g[3].as_deref(), Some("Intoxiqué"));
    assert!(m.dmg.is_some());
    let m = match_line(&p, "Toto: Invoque un(e) La Goulue");
    assert!(m.summon.is_some());
}

#[test]
fn direct_hits_of_one_spell_join_one_entry() {
    let p = patterns();
    let followers = names(&["Toto"]);
    let mut s = AppState::new(config("mono", 1, &["Toto"]));
    feed(
        &mut s,
        &p,
        &followers,
        &[
            "[Information (combat)] Toto lance le sort Fulgur",
            "[Information (combat)] Bouftou: -150 PV (Feu)",
            "[Information (combat)] Bouftou: -1 050 PV (Feu)",
        ],
        0,
    );
    assert_eq!(total_of(&s, "Toto"), Some(1200));
    let es = entries_of(&s, "Toto");
    assert_eq!(es.len(), 1);
    assert_eq!(es[0].spell, "Fulgur");
    assert_eq!(es[0].hits, vec![150, 1050]);
    assert_eq!(es[0].total, 1200);
    assert_eq!(es[0].turn, 1);
    assert!(!es[0].is_indirect);
    assert_eq!(s.visible_players, names(&["Toto"]));
}

#[test]
fn hits_on_a_followed_player_or_by_a_stranger_do_not_count() {
    let p = patterns();
    let followers = names(&["Toto"]);
    let mut s = AppState::new(config("mono", 1, &["Toto"]));
    feed(
        &mut s,
        &p,
        &followers,
        &[
            "Toto lance le sort Fulgur",
            "Toto: -80 PV (Feu)",
            "Bouftou lance le sort Morsure",
            "Toto: -30 PV (Terre)",
            "Arbre: -12 PV (Terre)",
        ],
        0,
    );
    assert_eq!(total_of(&s, "Toto"), None);
    assert!(s.history.is_empty());
}

#[test]
fn turn_report_opens_next_turn_and_new_entry() {
    let p = patterns();
    let followers = names(&["Toto"]);
    let mut s = AppState::new(config("mono", 1, &["Toto"]));
    feed(
        &mut s,
        &p,
        &followers,
        &[
            "Toto lance le sort Fulgur",
            "Bouftou: -100 PV (Feu)",
            "Toto: 2 secondes reportées pour le tour suivant.",
        ],
        0,
    );
    assert_eq!(s.current_turn, 2);
    assert_eq!(s.tour_reports_seen, 0);
    assert_eq!(s.current_caster, None);
    feed(&mut s, &p, &followers, &["Toto lance le sort Fulgur", "Bouftou: -60 PV (Feu)"], 0);
    let es = entries_of(&s, "Toto");
    assert_eq!(es.len(), 2);
    assert_eq!(es[1].turn, 2);
    assert_eq!(es[1].total, 60);
    assert_eq!(total_of(&s, "Toto"), Some(160));
}

#[test]
fn two_players_need_two_turn_reports_unless_one_is_ko() {
    let p = patterns();
    let followers = names(&["Toto", "Titi"]);
    let mut s = AppState::new(config("mono", 2, &["Toto", "Titi"]));
    feed(&mut s, &p, &followers, &["Toto: 3 secondes reportées pour le tour suivant."], 0);
    assert_eq!(s.current_turn, 1);
    assert_eq!(s.tour_reports_seen, 1);
    feed(&mut s, &p, &followers, &["Titi: 1 seconde reportée pour le tour suivant."], 0);
    assert_eq!(s.current_turn, 2);
    assert_eq!(s.tour_reports_seen, 0);
    feed(&mut s, &p, &followers, &["Titi est KO !"], 0);
    assert_eq!(s.ko_players, names(&["Titi"]));
    feed(&mut s, &p, &followers, &["Toto: 3 secondes reportées pour le tour suivant."], 0);
    assert_eq!(s.current_turn, 3);
    feed(&mut s, &p, &followers, &["Titi est ressuscité !"], 0);
    assert!(s.ko_players.is_empty());
}

#[test]
fn state_damage_goes_to_the_player_who_applied_it() {
    let p = patterns();
    let followers = names(&["Toto"]);
    let mut s = AppState::new(config("mono", 1, &["Toto"]));
    feed(
        &mut s,
        &p,
        &followers,
        &[
            "Toto lance le sort Toxines",
            "Bouftou: Intoxiqué (Niv. 3)",
            "Bouftou: -40 PV (Intoxiqué)",
            "Bouftou: -25 PV (Intoxiqué)",
        ],
        0,
    );
    assert_eq!(s.state_to_caster.len(), 1);
    assert_eq!(s.state_to_caster[0].0, "intoxiqué");
    assert_eq!(s.state_to_caster[0].1, ("Intoxiqué".to_string(), "Toto".to_string(), 1));
    assert_eq!(total_of(&s, "Toto"), Some(65));
    let es = entries_of(&s, "Toto");
    assert_eq!(es.len(), 1);
    assert_eq!(es[0].spell, "Intoxiqué");
    assert_eq!(es[0].hits, vec![40, 25]);
    assert!(es[0].is_indirect);
}

#[test]
fn summon_hits_go_to_the_summoner() {
    let p = patterns();
    let followers = names(&["Toto"]);
    let mut s = AppState::new(config("mono", 1, &["Toto"]));
    feed(
        &mut s,
        &p,
        &followers,
        &[
            "Toto: Invoque un(e) La Goulue",
            "La Goulue lance le sort Morsure",
            "Bouftou: -30 PV (Terre)",
            "Bouftou: -20 PV (Terre)",
        ],
        0,
    );
    assert_eq!(s.summon_to_owner, vec![("La Goulue".to_string(), "Toto".to_string())]);
    assert_eq!(total_of(&s, "Toto"), Some(50));
    let es = entries_of(&s, "Toto");
    assert_eq!(es.len(), 1);
    assert_eq!(es[0].spell, "Morsure [Invoc]");
    assert_eq!(es[0].hits, vec![30, 20]);
}

#[test]
fn gobgob_summon_waits_for_its_first_cast() {
    let p = patterns();
    let followers = names(&["Osa"]);
    let summons = names(&["Gobgob"]);
    let mut s = AppState::new(config("mono", 1, &["Osa"]));
    process_line(&mut s, &p, "Osa: Invoque une créature du Gobgob", &followers, &summons, 0);
    assert_eq!(s.pending_summon_owner, Some("Osa".to_string()));
    process_line(&mut s, &p, "Gobgob lance le sort Coup", &followers, &summons, 0);
    assert_eq!(s.pending_summon_owner, None);
    assert_eq!(s.summon_to_owner, vec![("Gobgob".to_string(), "Osa".to_string())]);
    process_line(&mut s, &p, "Bouftou: -9 PV (Air)", &followers, &summons, 0);
    assert_eq!(total_of(&s, "Osa"), Some(9));
}

#[test]
fn twin_lines_of_two_clients_count_once() {
    let p = patterns();
    let followers = names(&["Toto"]);
    let mut s = AppState::new(config("multi", 2, &["Toto"]));
    feed(&mut s, &p, &followers, &["Toto lance le sort Fulgur", "Bouftou: -100 PV (Feu)"], 1_000);
    feed(&mut s, &p, &followers, &["Toto lance le sort Fulgur", "Bouftou: -100 PV (Feu)"], 2_000);
    assert_eq!(total_of(&s, "Toto"), Some(100));
    assert!(s.multi_buffer.is_empty());
    feed(&mut s, &p, &followers, &["Bouftou: -100 PV (Feu)"], 3_000);
    assert_eq!(total_of(&s, "Toto"), Some(200));
    assert_eq!(s.multi_buffer.len(), 1);
}

#[test]
fn late_twin_counts_again_after_timeouts() {
    let p = patterns();
    let followers = names(&["Toto"]);
    let mut s = AppState::new(config("multi", 2, &["Toto"]));
    feed(&mut s, &p, &followers, &["Toto lance le sort Fulgur", "Bouftou: -100 PV (Feu)"], 0);
    s.check_multi_buffer_timeouts(1_499_999_999);
    assert_eq!(s.multi_buffer.len(), 1);
    s.check_multi_buffer_timeouts(1_500_000_000);
    assert!(s.multi_buffer.is_empty());
    feed(&mut s, &p, &followers, &["Bouftou: -100 PV (Feu)"], 1_600_000_000);
    assert_eq!(total_of(&s, "Toto"), Some(200));
}

#[test]
fn followed_names_are_trimmed_and_blanks_dropped() {
    let r = active_tracked_players(&names(&[" Toto ", "", "   ", "Titi"]));
    assert_eq!(r, names(&["Toto", "Titi"]));
}

#[test]
fn empty_or_non_combat_lines_change_nothing() {
    let p = patterns();
    let followers = names(&["Toto"]);
    let mut s = AppState::new(config("mono", 1, &["Toto"]));
    feed(&mut s, &p, &followers, &["", "   ", "[12:00:00,000]", "Une ligne sans rapport"], 0);
    assert!(s.total_damage.is_empty());
    assert_eq!(s.current_turn, 1);
    assert!(s.history.is_empty());
}

#[test]
fn totals_match_the_entries_after_a_combat() {
    let p = patterns();
    let followers = names(&["Toto", "Titi"]);
    let mut s = AppState::new(config("mono", 2, &["Toto", "Titi"]));
    feed(
        &mut s,
        &p,
        &followers,
        &[
            "Toto lance le sort Toxines",
            "Bouftou: Intoxiqué (Niv. 3)",
            "Bouftou: -12 PV",
            "Titi: Invoque un(e) La Goulue",
            "La Goulue lance le sort Morsure",
            "Bouftou: -30 PV (Terre)",
            "Titi lance le sort Flèche",
            "Bouftou: -44 PV (Air)",
            "Bouftou: -5 PV (Intoxiqué)",
            "Toto: 1 seconde reportée pour le tour suivant.",
            "Titi: 1 seconde reportée pour le tour suivant.",
            "Titi lance le sort Flèche",
            "Bouftou: -1 PV (Air)",
        ],
        0,
    );
    assert_eq!(total_of(&s, "Toto"), Some(17));
    assert_eq!(total_of(&s, "Titi"), Some(75));
    for (who, total) in &s.total_damage {
        let es = entries_of(&s, who);
        assert_eq!(es.iter().map(|e| e.total).sum::<i32>(), *total);
        for e in es {
            assert_eq!(e.hits.iter().sum::<i32>(), e.total);
        }
        let es_vec = es.to_vec();
        assert_eq!(spell_recap(&es_vec).iter().map(|r| r.1).sum::<i32>(), *total);
        assert_eq!(turn_breakdown(&es_vec).iter().map(|b| b.2).sum::<i32>(), *total);
        assert_eq!(player_spell_totals(&es_vec).iter().map(|r| (r.1).0).sum::<i32>(), *total);
    }
    assert_eq!(s.current_turn, 2);
}
