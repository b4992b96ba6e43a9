//! The combat-log vocabulary: the regular expressions that recognise each
//! kind of log line, and the clean-up that a raw log line goes through.

use vstd::prelude::*;
use crate::text::{find_first, find_text, replace_all_text, replace_text, slice_text, trim, trim_text};

verus! {

#[verifier::external_type_specification]
#[verifier::external_body]
pub struct ExRegex(regex::Regex);

/// A compiled regular expression, kept with the pattern text it was
/// compiled from. Only `compile` builds one.
pub struct Pattern {
    source: String,
    re: regex::Regex,
}

impl Pattern {
    /// The pattern text this expression was compiled from.
    pub closed spec fn source(&self) -> Seq<char> {
        self.source@
    }
}

/// Name for whether `regex::Regex::new` accepts a pattern text.
pub uninterp spec fn regex_compiles(pattern: Seq<char>) -> bool;

/// Name for what `Regex::captures` finds: `None` when the expression does not
/// match the text, else, for each group of the leftmost-first match, the
/// text it captured, or `None` for a group that did not take part.
pub uninterp spec fn regex_captures(pattern: Seq<char>, text: Seq<char>) -> Option<
    Seq<Option<Seq<char>>>,
>;

/// Name for what `Regex::replace_all` returns when every match is replaced
/// by the empty text.
pub uninterp spec fn regex_erase_all(pattern: Seq<char>, text: Seq<char>) -> Seq<char>;

/// The texts of a list of capture groups.
pub open spec fn groups_view(groups: Seq<Option<String>>) -> Seq<Option<Seq<char>>> {
    groups.map_values(|g: Option<String>| match g {
        Some(t) => Some(t@),
        None => None,
    })
}

pub open spec fn captures_view(r: Option<Vec<Option<String>>>) -> Option<Seq<Option<Seq<char>>>> {
    match r {
        Some(groups) => Some(groups_view(groups@)),
        None => None,
    }
}

/// Group `i` of a match, as `Captures::get` gives it (`None` past the last group).
pub open spec fn group(groups: Seq<Option<Seq<char>>>, i: int) -> Option<Seq<char>> {
    if 0 <= i < groups.len() {
        groups[i]
    } else {
        None
    }
}

/// Calls `regex::Regex::new`. Claims that it succeeds exactly on the pattern
/// texts that `regex_compiles` names, and that the result remembers the text.
#[verifier::external_body]
pub(crate) fn compile(pattern: &str) -> (r: Option<Pattern>)
    ensures
        r is Some <==> regex_compiles(pattern@),
        r matches Some(p) ==> p.source() == pattern@,
{
    match regex::Regex::new(pattern) {
        Ok(re) => Some(Pattern { source: pattern.to_string(), re }),
        Err(_) => None,
    }
}

/// Calls `Regex::captures` and copies out the text of every group. Claims
/// that the result is `regex_captures` of the pattern text and the haystack.
#[verifier::external_body]
pub(crate) fn captures(p: &Pattern, text: &str) -> (r: Option<Vec<Option<String>>>)
    ensures
        captures_view(r) == regex_captures(p.source(), text@),
{
    match p.re.captures(text) {
        None => None,
        Some(caps) => {
            let mut groups = Vec::new();
            for i in 0..caps.len() {
                groups.push(caps.get(i).map(|m| m.as_str().to_string()));
            }
            Some(groups)
        },
    }
}

/// Calls `Regex::replace_all` with an empty replacement. Claims that the
/// result is `regex_erase_all` of the pattern text and the haystack.
#[verifier::external_body]
pub(crate) fn erase_all(p: &Pattern, text: &str) -> (r: String)
    ensures
        r@ == regex_erase_all(p.source(), text@),
{
    p.re.replace_all(text, "").into_owned()
}

/// The text of the group `i` of a match.
pub fn group_text(groups: &Vec<Option<String>>, i: usize) -> (r: Option<String>)
    ensures
        r matches Some(t) ==> group(groups_view(groups@), i as int) == Some(t@),
        r is None ==> group(groups_view(groups@), i as int) is None,
{
    if i < groups.len() {
        match &groups[i] {
            Some(t) => Some(t.clone()),
            None => None,
        }
    } else {
        None
    }
}

pub open spec fn timestamp_pattern() -> Seq<char> {
    "^\\s*\\[?\\d{2}:\\d{2}:\\d{2},\\d{3}\\]?\\s*"@
}

/// What remains of a log line once its time stamp is gone: narrow no-break
/// spaces become spaces, double spaces single ones, everything up to the
/// `(combat)]` tag is dropped, and the rest is trimmed.
pub open spec fn combat_text(stripped: Seq<char>) -> Seq<char> {
    let spaced = replace_text(stripped, "\u{202F}"@, " "@);
    let single = replace_text(spaced, "  "@, " "@);
    let k = find_first(single, "(combat)]"@);
    if k >= 0 {
        trim(single.skip(k + 9))
    } else {
        trim(single)
    }
}

/// The clean-up of a log line whose time stamp has already been removed.
pub fn finish_combat_line(stripped: &str) -> (r: String)
    ensures
        r@ == combat_text(stripped@),
{
    proof {
        reveal_strlit("\u{202F}");
        reveal_strlit("  ");
        reveal_strlit("(combat)]");
    }
    let spaced = replace_all_text(stripped, "\u{202F}", " ");
    let single = replace_all_text(spaced.as_str(), "  ", " ");
    match find_text(single.as_str(), "(combat)]") {
        Some(k) => {
            let n = single.unicode_len();
            let rest = slice_text(single.as_str(), k + 9, n);
            proof {
                assert(rest@ =~= single@.skip(k + 9));
            }
            trim_text(rest.as_str())
        },
        None => trim_text(single.as_str()),
    }
}

/// The combat part of a raw log line: the time stamp removed (when its
/// expression compiles), then `combat_text`.
pub open spec fn normalized(line: Seq<char>) -> Seq<char> {
    combat_text(
        if regex_compiles(timestamp_pattern()) {
            regex_erase_all(timestamp_pattern(), line)
        } else {
            line
        },
    )
}

/// The combat part of a raw log line.
pub fn normalize_combat_only(line: &str) -> (r: String)
    ensures
        r@ == normalized(line@),
{
    let stripped = match compile("^\\s*\\[?\\d{2}:\\d{2}:\\d{2},\\d{3}\\]?\\s*") {
        Some(p) => erase_all(&p, line),
        None => line.to_owned(),
    };
    finish_combat_line(stripped.as_str())
}


pub open spec fn ko_pattern() -> Seq<char> {
    "(?i)^(.+?)\\s+est\\s+(K\\.?O\\.?|KO)\\s*!"@
}

pub open spec fn turn_pattern() -> Seq<char> {
    "(?i)\\b\\d{1,3}\\s+seconde(s)?\\s+report\u{e9}e(s)?\\s+pour\\s+le\\s+tour\\s+suivant\\."@
}

pub open spec fn cast_pattern() -> Seq<char> {
    "^(.+?) lance le sort (.+)$"@
}

pub open spec fn dmg_pattern() -> Seq<char> {
    ":\\s*(-?[\\d\\s]+)"@
}

pub open spec fn state_apply_pattern() -> Seq<char> {
    "^(.+?):\\s*(.+?)\\s*\\((?:Niv\\.|\\+)\\s*\\d+.*?\\)$"@
}

pub open spec fn dmg_with_state_pattern() -> Seq<char> {
    "^(.+?):\\s*-?([\\d\\s]+)\\s*PV.*?\\((.+?)\\)$"@
}

pub open spec fn summon_pattern() -> Seq<char> {
    "^(.+?):\\s*Invoque"@
}

pub open spec fn revive_pattern() -> Seq<char> {
    "(?i)^(.+?)\\s+est\\s+ressuscit\u{e9}\\s*!"@
}

/// The expressions that recognise the kinds of combat lines.
pub struct LogPatterns {
    pub ko: Pattern,
    pub turn: Pattern,
    pub cast: Pattern,
    pub dmg: Pattern,
    pub state_apply: Pattern,
    pub dmg_with_state: Pattern,
    pub summon: Pattern,
    pub revive: Pattern,
}

impl LogPatterns {
    /// Each expression is compiled from its standard pattern text.
    pub open spec fn standard(&self) -> bool {
        &&& self.ko.source() == ko_pattern()
        &&& self.turn.source() == turn_pattern()
        &&& self.cast.source() == cast_pattern()
        &&& self.dmg.source() == dmg_pattern()
        &&& self.state_apply.source() == state_apply_pattern()
        &&& self.dmg_with_state.source() == dmg_with_state_pattern()
        &&& self.summon.source() == summon_pattern()
        &&& self.revive.source() == revive_pattern()
    }
}

/// Every standard pattern text compiles.
pub open spec fn all_patterns_compile() -> bool {
    &&& regex_compiles(ko_pattern())
    &&& regex_compiles(turn_pattern())
    &&& regex_compiles(cast_pattern())
    &&& regex_compiles(dmg_pattern())
    &&& regex_compiles(state_apply_pattern())
    &&& regex_compiles(dmg_with_state_pattern())
    &&& regex_compiles(summon_pattern())
    &&& regex_compiles(revive_pattern())
}

/// Compiles the expressions of the combat lines; `None` when one of them
/// does not compile.
pub fn create_regex_patterns() -> (r: Option<LogPatterns>)
    ensures
        r is Some <==> all_patterns_compile(),
        r matches Some(p) ==> p.standard(),
{
    let ko = compile("(?i)^(.+?)\\s+est\\s+(K\\.?O\\.?|KO)\\s*!");
    let turn = compile("(?i)\\b\\d{1,3}\\s+seconde(s)?\\s+report\u{e9}e(s)?\\s+pour\\s+le\\s+tour\\s+suivant\\.");
    let cast = compile("^(.+?) lance le sort (.+)$");
    let dmg = compile(":\\s*(-?[\\d\\s]+)");
    let state_apply = compile("^(.+?):\\s*(.+?)\\s*\\((?:Niv\\.|\\+)\\s*\\d+.*?\\)$");
    let dmg_with_state = compile("^(.+?):\\s*-?([\\d\\s]+)\\s*PV.*?\\((.+?)\\)$");
    let summon = compile("^(.+?):\\s*Invoque");
    let revive = compile("(?i)^(.+?)\\s+est\\s+ressuscit\u{e9}\\s*!");
    match (ko, turn, cast, dmg, state_apply, dmg_with_state, summon, revive) {
        (Some(ko), Some(turn), Some(cast), Some(dmg), Some(state_apply), Some(dmg_with_state), Some(summon), Some(revive)) => {
            Some(LogPatterns { ko, turn, cast, dmg, state_apply, dmg_with_state, summon, revive })
        },
        _ => None,
    }
}

} // verus!
