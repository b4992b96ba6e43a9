use wakfu_calculateur::archiving::{join_text, rank_by_damage};
use wakfu_calculateur::controls::offered_player_counts;
use wakfu_calculateur::model::{AppConfig, AppState, CombatArchive, SpellEntry, Tab};
use wakfu_calculateur::recap::{
    clean_accents, lines_of_turn, recap_less, spell_recap, spell_totals_of, text_less,
    turn_breakdown, turns_of,
};
use wakfu_calculateur::stats::{all_actions, latest_two, player_spell_totals, rank_players, total_of, turn_runs_of};

fn entry(spell: &str, hits: &[i32], turn: i32, indirect: bool) -> SpellEntry {
    SpellEntry {
        spell: spell.to_string(),
        hits: hits.to_vec(),
        total: hits.iter().sum(),
        turn,
        is_indirect: indirect,
    }
}

fn s(x: &str) -> String {
    x.to_string()
}

fn played() -> Vec<SpellEntry> {
    vec![
        entry("Fulgur", &[10, 5], 1, false),
        entry("Poison", &[3], 1, true),
        entry("Éclair", &[20], 2, false),
        entry("Fulgur", &[7], 2, false),
        entry("Poison", &[4], 3, true),
    ]
}

#[test]
fn clean_accents_drops_marks_then_lowers() {
    assert_eq!(clean_accents("E\u{301}pe\u{301}e"), "epee");
    assert_eq!(clean_accents("Épée"), "epee");
    assert_eq!(clean_accents("FULGUR"), "fulgur");
    assert_eq!(clean_accents(""), "");
    assert_eq!(clean_accents("İ"), "i");
    assert_eq!(clean_accents("Ǖ"), "u");
    assert_eq!(clean_accents("Ça ŒUVRE à l'Île"), "ca œuvre a l'ile");
    assert_eq!(clean_accents("ἄλφα"), "αλφα");
    assert_eq!(clean_accents("Ёж"), "еж");
    assert_eq!(clean_accents("a\u{300}\u{36f}b\u{370}"), "ab\u{371}");
    assert_eq!(clean_accents(&clean_accents("Épée Ǖ İ")), clean_accents("Épée Ǖ İ"));
    assert_eq!(clean_accents("\u{212B}"), "a");
    assert_eq!(clean_accents("\u{212A}"), "k");
    assert_eq!(clean_accents("가"), "\u{1100}\u{1161}");
    assert_eq!(clean_accents("각"), "\u{1100}\u{1161}\u{11a8}");
    assert_eq!(clean_accents("が"), "か\u{3099}");
    assert_eq!(clean_accents("\u{F900}"), "\u{8c48}");
    assert_eq!(clean_accents("a\u{5b8}\u{5b7}"), "a\u{5b7}\u{5b8}");
    assert_eq!(clean_accents("a\u{5b8}\u{301}\u{5b7}"), "a\u{5b7}\u{5b8}");
    assert_eq!(clean_accents("\u{1e69}"), "s");
}

#[test]
fn text_order_is_that_of_strings() {
    assert!(text_less("abc", "abd"));
    assert!(text_less("ab", "abc"));
    assert!(!text_less("abc", "ab"));
    assert!(!text_less("abc", "abc"));
    assert!(text_less("", "a"));
    assert!(text_less("Z", "a"));
}

#[test]
fn turn_lines_and_totals() {
    let es = played();
    let (lines, total) = lines_of_turn(&es, 1);
    assert_eq!(lines, vec![(s("Fulgur"), 15, false), (s("Poison"), 3, true)]);
    assert_eq!(total, 18);
    let (lines, total) = lines_of_turn(&es, 9);
    assert!(lines.is_empty());
    assert_eq!(total, 0);
    assert_eq!(turns_of(&es), vec![1, 2, 3]);
    let unordered = vec![entry("A", &[1], 3, false), entry("B", &[2], 1, false), entry("C", &[3], 3, false)];
    assert_eq!(turns_of(&unordered), vec![1, 3]);
}

#[test]
fn turn_breakdown_groups_by_turn_in_order() {
    let unordered = vec![entry("A", &[1], 3, false), entry("B", &[2], 1, false), entry("C", &[3], 3, true)];
    let b = turn_breakdown(&unordered);
    assert_eq!(b.len(), 2);
    assert_eq!(b[0], (1, vec![(s("B"), 2, false)], 2));
    assert_eq!(b[1], (3, vec![(s("A"), 1, false), (s("C"), 3, true)], 4));
    assert!(turn_breakdown(&Vec::new()).is_empty());
}

#[test]
fn spell_totals_merge_a_spell_over_turns() {
    let t = spell_totals_of(&played());
    assert_eq!(t, vec![(s("Fulgur"), (22, false)), (s("Poison"), (7, true)), (s("Éclair"), (20, false))]);
}

#[test]
fn recap_orders_by_damage_then_kind_then_name() {
    let es = vec![
        entry("b", &[5], 1, false),
        entry("A", &[5], 1, false),
        entry("Poison", &[5], 1, true),
        entry("Gros", &[50], 2, false),
        entry("é", &[1], 2, false),
        entry("e\u{301}a", &[1], 2, false),
    ];
    let r = spell_recap(&es);
    assert_eq!(
        r,
        vec![
            (s("Gros"), 50, false),
            (s("A"), 5, false),
            (s("b"), 5, false),
            (s("Poison"), 5, true),
            (s("é"), 1, false),
            (s("e\u{301}a"), 1, false),
        ]
    );
    assert!(recap_less(&(s("x"), 2, true), &(s("y"), 1, false)));
    assert!(recap_less(&(s("x"), 1, false), &(s("a"), 1, true)));
    assert!(!recap_less(&(s("a"), 1, true), &(s("x"), 1, false)));
    assert!(recap_less(&(s("Alpha"), 1, false), &(s("beta"), 1, false)));
    assert!(recap_less(&(s("Épée"), 1, false), &(s("Flèche"), 1, false)));
    assert!(!recap_less(&(s("Flèche"), 1, false), &(s("Épée"), 1, false)));
}

#[test]
fn stats_spell_totals_label_indirect_apart() {
    let es = vec![
        entry("Poison", &[3], 1, false),
        entry("Poison", &[4], 1, true),
        entry("Fulgur", &[10], 2, false),
        entry("Poison", &[5], 2, true),
    ];
    let r = player_spell_totals(&es);
    assert_eq!(r, vec![(s("Fulgur"), (10, false)), (s("Poison (indirect)"), (9, true)), (s("Poison"), (3, false))]);
}

#[test]
fn players_rank_by_total() {
    let totals = vec![(s("A"), 10), (s("B"), 30), (s("C"), 20)];
    assert_eq!(total_of(&totals, &s("B")), 30);
    assert_eq!(total_of(&totals, &s("Z")), 0);
    let r = rank_players(&vec![s("Z"), s("A"), s("B"), s("C")], &totals);
    assert_eq!(r, vec![s("B"), s("C"), s("A"), s("Z")]);
    let d = rank_by_damage(&totals);
    assert_eq!(d, vec![(s("B"), 30), (s("C"), 20), (s("A"), 10)]);
    let tied = rank_by_damage(&vec![(s("X"), 5), (s("Y"), 5), (s("W"), 9)]);
    assert_eq!(tied, vec![(s("W"), 9), (s("X"), 5), (s("Y"), 5)]);
}

#[test]
fn runs_of_turns() {
    let es = played();
    assert_eq!(turn_runs_of(&es), vec![(1, 2, 18), (2, 2, 27), (3, 1, 4)]);
    let back = vec![entry("A", &[1], 1, false), entry("B", &[2], 2, false), entry("C", &[3], 1, false)];
    assert_eq!(turn_runs_of(&back), vec![(1, 1, 1), (2, 1, 2), (1, 1, 3)]);
}

#[test]
fn latest_actions_follow_turns_then_order() {
    let h = vec![
        (s("Toto"), vec![entry("A", &[1], 1, false), entry("B", &[2], 3, false)]),
        (s("Titi"), vec![entry("C", &[3], 3, false), entry("D", &[4], 2, false)]),
    ];
    let a = all_actions(&h);
    let who: Vec<(&str, &str)> = a.iter().map(|(p, e)| (p.as_str(), e.spell.as_str())).collect();
    assert_eq!(who, vec![("Toto", "A"), ("Toto", "B"), ("Titi", "C"), ("Titi", "D")]);
    let (last, prev) = latest_two(&a);
    assert_eq!(last, Some(2));
    assert_eq!(prev, Some(1));
    assert_eq!(latest_two(&Vec::new()), (None, None));
    let one = all_actions(&vec![(s("Toto"), vec![entry("A", &[1], 1, false)])]);
    assert_eq!(latest_two(&one), (Some(0), None));
}

#[test]
fn join_names_with_separator() {
    assert_eq!(join_text(&vec![], ", "), "");
    assert_eq!(join_text(&vec![s("A")], ", "), "A");
    assert_eq!(join_text(&vec![s("A"), s("B"), s("C")], ", "), "A, B, C");
}

#[test]
fn saving_a_combat_archives_it_and_clears_the_combat() {
    let mut c = AppConfig::default();
    c.combat_counter = 4;
    let mut st = AppState::new(c);
    st.process_action(s("A"), 10, s("DMG"), Some(s("F")), 0);
    st.process_action(s("B"), 30, s("DMG"), Some(s("G")), 0);
    st.apply_final_stats(s("System"), 0, s("TURN"), None);
    st.save_current_combat();
    assert_eq!(st.archives.len(), 1);
    assert_eq!(st.permanent_archives.len(), 1);
    assert_eq!(st.config.permanent_archives.len(), 1);
    let a: &CombatArchive = &st.archives[0];
    assert_eq!(a.name, "Combat #4");
    assert_eq!(a.players_involved, "A, B");
    assert_eq!(a.total_turns, 2);
    assert_eq!(a.damages, vec![(s("B"), 30), (s("A"), 10)]);
    assert_eq!(a.details_history.len(), 2);
    assert_eq!(st.combat_counter, 5);
    assert_eq!(st.config.combat_counter, 5);
    assert!(st.total_damage.is_empty() && st.history.is_empty() && st.visible_players.is_empty());
    assert_eq!(st.current_turn, 1);
    st.save_current_combat();
    assert_eq!(st.archives.len(), 1);
}

#[test]
fn negative_counter_in_the_title() {
    let mut c = AppConfig::default();
    c.combat_counter = -12;
    let mut st = AppState::new(c);
    st.process_action(s("A"), 1, s("DMG"), None, 0);
    st.save_current_combat();
    assert_eq!(st.archives[0].name, "Combat #-12");
    assert_eq!(st.combat_counter, -11);
}

#[test]
fn archives_are_moved_renamed_and_deleted() {
    let mut st = AppState::new(AppConfig::default());
    st.process_action(s("A"), 1, s("DMG"), None, 0);
    st.save_current_combat();
    st.process_action(s("B"), 2, s("DMG"), None, 0);
    st.save_current_combat();
    assert_eq!(st.archives.len(), 2);
    assert_eq!(st.permanent_archives.len(), 2);
    st.archive_session_combat(0);
    assert_eq!(st.archives.len(), 1);
    assert_eq!(st.permanent_archives.len(), 3);
    assert_eq!(st.permanent_archives[2].name, "Combat #1");
    assert_eq!(st.config.permanent_archives.len(), 3);
    st.rename_permanent_archive(2, s("Donjon"));
    assert_eq!(st.permanent_archives[2].name, "Donjon");
    assert_eq!(st.config.permanent_archives[2].name, "Donjon");
    st.delete_permanent_archive(0);
    assert_eq!(st.permanent_archives.len(), 2);
    assert_eq!(st.config.permanent_archives.len(), 2);
    st.delete_session_combat(0);
    assert!(st.archives.is_empty());
    st.process_action(s("C"), 3, s("DMG"), None, 0);
    st.save_current_combat();
    st.clear_session_combats();
    assert!(st.archives.is_empty());
    st.clear_permanent_archives();
    assert!(st.permanent_archives.is_empty() && st.config.permanent_archives.is_empty());
}

#[test]
fn modes_and_player_counts() {
    let mut st = AppState::new(AppConfig::default());
    st.process_action(s("A"), 1, s("DMG"), None, 0);
    st.players_to_include = 1;
    st.select_multi_mode();
    assert_eq!(st.mode, "multi");
    assert_eq!(st.players_to_include, 2);
    assert!(st.total_damage.is_empty());
    st.players_to_include = 8;
    st.select_mono_mode();
    assert_eq!(st.mode, "mono");
    assert_eq!(st.players_to_include, 6);
    assert_eq!(offered_player_counts("mono"), (1, 6));
    assert_eq!(offered_player_counts("multi"), (2, 6));
    st.select_player_count(4);
    assert_eq!(st.players_to_include, 4);
    assert!(st.has_started);
    assert_eq!(st.current_tab, Tab::Stats);
}

#[test]
fn reset_keeps_path_followed_players_and_archives() {
    let mut st = AppState::new(AppConfig::default());
    st.config.log_path = s("/tmp/wakfu.log");
    st.config.tracked_players = vec![s("Toto")];
    st.config.mode = s("multi");
    st.config.players_to_include = 5;
    st.config.combat_counter = 9;
    st.process_action(s("A"), 1, s("DMG"), None, 0);
    st.save_current_combat();
    st.process_action(s("B"), 1, s("DMG"), None, 0);
    st.reset_to_defaults();
    assert_eq!(st.config.log_path, "/tmp/wakfu.log");
    assert_eq!(st.config.tracked_players, vec![s("Toto")]);
    assert_eq!(st.config.permanent_archives.len(), 1);
    assert_eq!(st.config.mode, "mono");
    assert_eq!(st.config.players_to_include, 1);
    assert_eq!(st.config.combat_counter, 1);
    assert_eq!(st.mode, "mono");
    assert_eq!(st.players_to_include, 1);
    assert!(st.total_damage.is_empty());
}

#[test]
fn full_reset_clears_only_the_combat() {
    let mut st = AppState::new(AppConfig::default());
    st.process_action(s("A"), 1, s("DMG"), None, 0);
    st.save_current_combat();
    st.process_action(s("B"), 1, s("DMG"), None, 0);
    st.apply_final_stats(s("System"), 0, s("TURN"), None);
    st.full_reset();
    assert!(st.total_damage.is_empty() && st.history.is_empty());
    assert_eq!(st.current_turn, 1);
    assert_eq!(st.archives.len(), 1);
    assert_eq!(st.combat_counter, 2);
}

#[test]
fn followed_players_are_added_once_and_reordered() {
    let mut c = AppConfig::default();
    assert!(c.add_tracked_player("  Toto "));
    assert!(!c.add_tracked_player("Toto"));
    assert!(!c.add_tracked_player("   "));
    assert!(c.add_tracked_player("Titi"));
    assert!(c.add_tracked_player("Tata"));
    assert_eq!(c.tracked_players, vec![s("Toto"), s("Titi"), s("Tata")]);
    c.swap_tracked_players(0, 2);
    assert_eq!(c.tracked_players, vec![s("Tata"), s("Titi"), s("Toto")]);
    c.remove_tracked_player(1);
    assert_eq!(c.tracked_players, vec![s("Tata"), s("Toto")]);
    let d = c.duplicate();
    assert_eq!(d.tracked_players, c.tracked_players);
}
