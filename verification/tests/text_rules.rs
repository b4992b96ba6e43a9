use wakfu_calculateur::combat_log::{damage_amount_of, invocation_name_text, set_origin, set_pair, trimmed_group_text};
use wakfu_calculateur::keyed::{find_key, find_name};
use wakfu_calculateur::parser::{finish_combat_line, group_text};
use wakfu_calculateur::text::{
    abs_wrapping_i32, contains, contains_name, decimal_text, find_text, first_segment_text, is_white_space_char,
    occurs_at_pos, parse_i32_text, replace_all_text, second_segment_text, slice_text, text_eq, trim_text,
};

fn s(x: &str) -> String {
    x.to_string()
}

#[test]
fn trimming_follows_unicode_white_space() {
    assert_eq!(trim_text("  a b \t\n"), "a b");
    assert_eq!(trim_text("\u{202F}x\u{3000}"), "x");
    assert_eq!(trim_text("   "), "");
    assert!(is_white_space_char('\u{a0}'));
    assert!(!is_white_space_char('x'));
    assert!(!is_white_space_char('\u{200b}'));
}

#[test]
fn searching_and_slicing() {
    assert_eq!(find_text("abcabc", "ca"), Some(2));
    assert_eq!(find_text("abc", "x"), None);
    assert_eq!(find_text("abc", ""), Some(0));
    assert_eq!(find_text("éa:b", ":"), Some(2));
    assert!(contains("Bouftou: -5 PV", "PV"));
    assert!(!contains("Bouftou", "PV"));
    assert!(occurs_at_pos("abc", "bc", 1));
    assert!(!occurs_at_pos("abc", "bc", 2));
    assert_eq!(slice_text("héllo", 1, 3), "él");
    assert!(text_eq("a", "a"));
    assert!(!text_eq("a", "A"));
    assert!(contains_name(&[s("A"), s("B")], "B"));
    assert!(!contains_name(&[s("A")], "a"));
}

#[test]
fn replacing_every_occurrence() {
    assert_eq!(replace_all_text("1 050 300", " ", ""), "1050300");
    assert_eq!(replace_all_text("a   b", "  ", " "), "a  b");
    assert_eq!(replace_all_text("aaa", "aa", "b"), "ba");
    assert_eq!(replace_all_text("abc", "x", "y"), "abc");
}

#[test]
fn segments_split_as_str_split() {
    assert_eq!(first_segment_text("Cible: -5 PV", ":"), "Cible");
    assert_eq!(first_segment_text("sans", ":"), "sans");
    assert_eq!(second_segment_text("A Invoque un B Invoque C", "Invoque"), Some(s(" un B ")));
    assert_eq!(second_segment_text("rien", "Invoque"), None);
}

#[test]
fn numbers_parse_and_print_as_std() {
    assert_eq!(parse_i32_text("42"), Some(42));
    assert_eq!(parse_i32_text("-42"), Some(-42));
    assert_eq!(parse_i32_text("+7"), Some(7));
    assert_eq!(parse_i32_text("2147483647"), Some(i32::MAX));
    assert_eq!(parse_i32_text("-2147483648"), Some(i32::MIN));
    assert_eq!(parse_i32_text("2147483648"), None);
    assert_eq!(parse_i32_text(""), None);
    assert_eq!(parse_i32_text("-"), None);
    assert_eq!(parse_i32_text("1 0"), None);
    assert_eq!(parse_i32_text("00012"), Some(12));
    assert_eq!(abs_wrapping_i32(-5), 5);
    assert_eq!(abs_wrapping_i32(5), 5);
    assert_eq!(abs_wrapping_i32(i32::MIN), i32::MIN);
    assert_eq!(decimal_text(0), "0");
    assert_eq!(decimal_text(1205), "1205");
    assert_eq!(decimal_text(-30), "-30");
    assert_eq!(decimal_text(i32::MIN), "-2147483648");
}

#[test]
fn captured_groups() {
    let g = vec![Some(s("all")), Some(s("  Toto ")), None, Some(s("-1 200 "))];
    assert_eq!(group_text(&g, 1), Some(s("  Toto ")));
    assert_eq!(group_text(&g, 2), None);
    assert_eq!(group_text(&g, 9), None);
    assert_eq!(trimmed_group_text(&g, 1), "Toto");
    assert_eq!(trimmed_group_text(&g, 2), "");
    assert_eq!(damage_amount_of(&g, 3), 1200);
    assert_eq!(damage_amount_of(&g, 1), 0);
    assert_eq!(damage_amount_of(&g, 2), 0);
}

#[test]
fn combat_part_of_a_line() {
    assert_eq!(finish_combat_line("x (combat)] y "), "y");
    assert_eq!(finish_combat_line("  pas de canal "), "pas de canal");
}

#[test]
fn summon_names_lose_their_article() {
    assert_eq!(invocation_name_text("Toto: Invoque un(e) La Goulue"), "La Goulue");
    assert_eq!(invocation_name_text("Toto: Invoque une Bestiole"), "e Bestiole");
    assert_eq!(invocation_name_text("Toto: Invoque un Lapin Runique"), "Lapin Rique");
    assert_eq!(invocation_name_text("Toto sans rien"), "");
}

#[test]
fn named_pairs_are_set_in_place_or_added() {
    let mut v = vec![(s("a"), s("1"))];
    set_pair(&mut v, s("b"), s("2"));
    set_pair(&mut v, s("a"), s("3"));
    assert_eq!(v, vec![(s("a"), s("3")), (s("b"), s("2"))]);
    assert_eq!(find_key(&v, "b"), Some(1));
    assert_eq!(find_key(&v, "z"), None);
    assert_eq!(find_name(&[s("x"), s("y")].to_vec(), "y"), Some(1));
    let mut o = vec![(s("feu"), (s("Feu"), s("A"), 1))];
    set_origin(&mut o, s("feu"), (s("Feu"), s("B"), 2));
    assert_eq!(o, vec![(s("feu"), (s("Feu"), s("B"), 2))]);
}
