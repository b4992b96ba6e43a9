//! The data of the damage meter: spell entries, archived combats, the
//! de-duplication buffer, the settings and the combat state, each with the
//! mathematical value it stands for.

use vstd::prelude::*;
use crate::keyed::keys_unique;

verus! {

/// One spell (or effect) of one player in one turn, with its hits.
#[derive(Clone, Debug)]
pub struct SpellEntry {
    pub spell: String,
    pub hits: Vec<i32>,
    pub total: i32,
    pub turn: i32,
    pub is_indirect: bool,
}

/// What a `SpellEntry` holds.
#[verifier::ext_equal]
pub struct SpellRecord {
    pub spell: Seq<char>,
    pub hits: Seq<i32>,
    pub total: i32,
    pub turn: i32,
    pub is_indirect: bool,
}

impl View for SpellEntry {
    type V = SpellRecord;

    open spec fn view(&self) -> SpellRecord {
        SpellRecord {
            spell: self.spell@,
            hits: self.hits@,
            total: self.total,
            turn: self.turn,
            is_indirect: self.is_indirect,
        }
    }
}

impl SpellEntry {
    /// A copy of this entry.
    pub fn duplicate(&self) -> (r: SpellEntry)
        ensures
            r@ == self@,
    {
        let hits = self.hits.clone();
        assert(hits@ =~= self.hits@);
        SpellEntry {
            spell: self.spell.clone(),
            hits,
            total: self.total,
            turn: self.turn,
            is_indirect: self.is_indirect,
        }
    }
}

pub open spec fn entries_view(es: Seq<SpellEntry>) -> Seq<SpellRecord> {
    es.map_values(|e: SpellEntry| e@)
}

pub open spec fn names_view(v: Seq<String>) -> Seq<Seq<char>> {
    v.map_values(|s: String| s@)
}

pub open spec fn opt_text(o: Option<String>) -> Option<Seq<char>> {
    match o {
        Some(s) => Some(s@),
        None => None,
    }
}

pub open spec fn totals_view(v: Seq<(String, i32)>) -> Seq<(Seq<char>, i32)> {
    v.map_values(|p: (String, i32)| (p.0@, p.1))
}

pub open spec fn history_view(v: Seq<(String, Vec<SpellEntry>)>) -> Seq<(Seq<char>, Seq<SpellRecord>)> {
    v.map_values(|p: (String, Vec<SpellEntry>)| (p.0@, entries_view(p.1@)))
}

pub open spec fn pairs_view(v: Seq<(String, String)>) -> Seq<(Seq<char>, Seq<char>)> {
    v.map_values(|p: (String, String)| (p.0@, p.1@))
}

pub open spec fn origins_view(v: Seq<(String, (String, String, i32))>) -> Seq<
    (Seq<char>, (Seq<char>, Seq<char>, i32)),
> {
    v.map_values(|p: (String, (String, String, i32))| (p.0@, (p.1.0@, p.1.1@, p.1.2)))
}

/// A finished combat, kept for the combats and archives tabs.
#[derive(Clone, Debug)]
pub struct CombatArchive {
    pub name: String,
    pub players_involved: String,
    pub total_turns: i32,
    pub damages: Vec<(String, i32)>,
    pub details_history: Vec<(String, Vec<SpellEntry>)>,
}

/// What a `CombatArchive` holds.
#[verifier::ext_equal]
pub struct ArchiveRecord {
    pub name: Seq<char>,
    pub players_involved: Seq<char>,
    pub total_turns: i32,
    pub damages: Seq<(Seq<char>, i32)>,
    pub details_history: Seq<(Seq<char>, Seq<SpellRecord>)>,
}

impl View for CombatArchive {
    type V = ArchiveRecord;

    open spec fn view(&self) -> ArchiveRecord {
        ArchiveRecord {
            name: self.name@,
            players_involved: self.players_involved@,
            total_turns: self.total_turns,
            damages: totals_view(self.damages@),
            details_history: history_view(self.details_history@),
        }
    }
}

pub open spec fn archives_view(v: Seq<CombatArchive>) -> Seq<ArchiveRecord> {
    v.map_values(|a: CombatArchive| a@)
}

/// An event seen from one game client, waiting for its twin from the other.
#[derive(Debug)]
pub struct BufferEntry {
    pub time: Option<u64>,
    pub source: String,
    pub value: i32,
    pub action_type: String,
    pub spell_name: Option<String>,
}

/// What a `BufferEntry` holds.
#[verifier::ext_equal]
pub struct BufferRecord {
    pub time: Option<u64>,
    pub source: Seq<char>,
    pub value: i32,
    pub action_type: Seq<char>,
    pub spell_name: Option<Seq<char>>,
}

impl View for BufferEntry {
    type V = BufferRecord;

    open spec fn view(&self) -> BufferRecord {
        BufferRecord {
            time: self.time,
            source: self.source@,
            value: self.value,
            action_type: self.action_type@,
            spell_name: opt_text(self.spell_name),
        }
    }
}

pub open spec fn buffer_view(v: Seq<(String, BufferEntry)>) -> Seq<(Seq<char>, BufferRecord)> {
    v.map_values(|p: (String, BufferEntry)| (p.0@, p.1@))
}

/// The tabs of the window.
#[derive(Clone, Copy, PartialEq, Eq, Structural, Debug)]
pub enum Tab {
    Aide,
    Stats,
    Combats,
    Archivage,
    Settings,
}


/// A copy of a list of spell entries.
pub fn copy_entries(v: &Vec<SpellEntry>) -> (r: Vec<SpellEntry>)
    ensures
        entries_view(r@) == entries_view(v@),
{
    let mut r: Vec<SpellEntry> = Vec::new();
    let mut i: usize = 0;
    while i < v.len()
        invariant
            i <= v@.len(),
            entries_view(r@) == entries_view(v@.take(i as int)),
        decreases v@.len() - i,
    {
        r.push(v[i].duplicate());
        proof {
            assert(entries_view(v@.take(i + 1)) =~= entries_view(v@.take(i as int)).push(v@[i as int]@));
        }
        i = i + 1;
        assert(entries_view(r@) =~= entries_view(v@.take(i as int)));
    }
    assert(v@.take(v@.len() as int) =~= v@);
    r
}

/// A copy of a list of names.
pub fn copy_names(v: &Vec<String>) -> (r: Vec<String>)
    ensures
        names_view(r@) == names_view(v@),
{
    let r = v.clone();
    assert(names_view(r@) =~= names_view(v@));
    r
}

/// A copy of a per-player history.
pub fn copy_history(v: &Vec<(String, Vec<SpellEntry>)>) -> (r: Vec<(String, Vec<SpellEntry>)>)
    ensures
        history_view(r@) == history_view(v@),
{
    let mut r: Vec<(String, Vec<SpellEntry>)> = Vec::new();
    let mut i: usize = 0;
    while i < v.len()
        invariant
            i <= v@.len(),
            history_view(r@) == history_view(v@.take(i as int)),
        decreases v@.len() - i,
    {
        let name = v[i].0.clone();
        let entries = copy_entries(&v[i].1);
        r.push((name, entries));
        proof {
            assert(history_view(v@.take(i + 1)) =~= history_view(v@.take(i as int)).push(
                (v@[i as int].0@, entries_view(v@[i as int].1@)),
            ));
        }
        i = i + 1;
        assert(history_view(r@) =~= history_view(v@.take(i as int)));
    }
    assert(v@.take(v@.len() as int) =~= v@);
    r
}

/// A copy of a list of per-player totals.
pub fn copy_totals(v: &Vec<(String, i32)>) -> (r: Vec<(String, i32)>)
    ensures
        totals_view(r@) == totals_view(v@),
{
    let mut r: Vec<(String, i32)> = Vec::new();
    let mut i: usize = 0;
    while i < v.len()
        invariant
            i <= v@.len(),
            totals_view(r@) == totals_view(v@.take(i as int)),
        decreases v@.len() - i,
    {
        r.push((v[i].0.clone(), v[i].1));
        proof {
            assert(totals_view(v@.take(i + 1)) =~= totals_view(v@.take(i as int)).push(
                (v@[i as int].0@, v@[i as int].1),
            ));
        }
        i = i + 1;
        assert(totals_view(r@) =~= totals_view(v@.take(i as int)));
    }
    assert(v@.take(v@.len() as int) =~= v@);
    r
}

impl CombatArchive {
    /// A copy of this archive.
    pub fn duplicate(&self) -> (r: CombatArchive)
        ensures
            r@ == self@,
    {
        CombatArchive {
            name: self.name.clone(),
            players_involved: self.players_involved.clone(),
            total_turns: self.total_turns,
            damages: copy_totals(&self.damages),
            details_history: copy_history(&self.details_history),
        }
    }
}

/// A copy of a list of archives.
pub fn copy_archives(v: &Vec<CombatArchive>) -> (r: Vec<CombatArchive>)
    ensures
        archives_view(r@) == archives_view(v@),
{
    let mut r: Vec<CombatArchive> = Vec::new();
    let mut i: usize = 0;
    while i < v.len()
        invariant
            i <= v@.len(),
            archives_view(r@) == archives_view(v@.take(i as int)),
        decreases v@.len() - i,
    {
        r.push(v[i].duplicate());
        proof {
            assert(archives_view(v@.take(i + 1)) =~= archives_view(v@.take(i as int)).push(
                v@[i as int]@,
            ));
        }
        i = i + 1;
        assert(archives_view(r@) =~= archives_view(v@.take(i as int)));
    }
    assert(v@.take(v@.len() as int) =~= v@);
    r
}

/// The settings that the combat logic reads and that are saved with it.
#[derive(Clone, Debug)]
pub struct AppConfig {
    pub log_path: String,
    pub always_on_top: bool,
    pub tracked_players: Vec<String>,
    pub mode: String,
    pub players_to_include: i32,
    pub permanent_archives: Vec<CombatArchive>,
    pub combat_counter: i32,
    pub text_color: [u8; 3],
    pub statut_maj: String,
    pub maj_disponible: bool,
    pub maj_prete_pour_redemarrage: bool,
    pub history_horizontal: bool,
}

/// What an `AppConfig` holds.
#[verifier::ext_equal]
pub struct ConfigRecord {
    pub log_path: Seq<char>,
    pub always_on_top: bool,
    pub tracked_players: Seq<Seq<char>>,
    pub mode: Seq<char>,
    pub players_to_include: i32,
    pub permanent_archives: Seq<ArchiveRecord>,
    pub combat_counter: i32,
    pub text_color: Seq<u8>,
    pub statut_maj: Seq<char>,
    pub maj_disponible: bool,
    pub maj_prete_pour_redemarrage: bool,
    pub history_horizontal: bool,
}

impl View for AppConfig {
    type V = ConfigRecord;

    open spec fn view(&self) -> ConfigRecord {
        ConfigRecord {
            log_path: self.log_path@,
            always_on_top: self.always_on_top,
            tracked_players: names_view(self.tracked_players@),
            mode: self.mode@,
            players_to_include: self.players_to_include,
            permanent_archives: archives_view(self.permanent_archives@),
            combat_counter: self.combat_counter,
            text_color: self.text_color@,
            statut_maj: self.statut_maj@,
            maj_disponible: self.maj_disponible,
            maj_prete_pour_redemarrage: self.maj_prete_pour_redemarrage,
            history_horizontal: self.history_horizontal,
        }
    }
}

/// The settings of a first start.
pub open spec fn default_config() -> ConfigRecord {
    ConfigRecord {
        log_path: Seq::empty(),
        always_on_top: true,
        tracked_players: Seq::empty(),
        mode: "mono"@,
        players_to_include: 1,
        permanent_archives: Seq::empty(),
        combat_counter: 1,
        text_color: seq![200u8, 200u8, 200u8],
        statut_maj: "Recherche de mise \u{e0} jour..."@,
        maj_disponible: false,
        maj_prete_pour_redemarrage: false,
        history_horizontal: true,
    }
}

impl Default for AppConfig {
    fn default() -> (r: AppConfig)
        ensures
            r@ == default_config(),
    {
        let r = AppConfig {
            log_path: String::new(),
            always_on_top: true,
            tracked_players: Vec::new(),
            mode: "mono".to_owned(),
            players_to_include: 1,
            permanent_archives: Vec::new(),
            combat_counter: 1,
            text_color: [200, 200, 200],
            statut_maj: "Recherche de mise \u{e0} jour...".to_owned(),
            maj_disponible: false,
            maj_prete_pour_redemarrage: false,
            history_horizontal: true,
        };
        assert(r@.tracked_players =~= Seq::<Seq<char>>::empty());
        assert(r@.permanent_archives =~= Seq::<ArchiveRecord>::empty());
        assert(r@.text_color =~= seq![200u8, 200u8, 200u8]);
        r
    }
}

impl AppConfig {
    /// A copy of these settings.
    pub fn duplicate(&self) -> (r: AppConfig)
        ensures
            r@ == self@,
    {
        AppConfig {
            log_path: self.log_path.clone(),
            always_on_top: self.always_on_top,
            tracked_players: copy_names(&self.tracked_players),
            mode: self.mode.clone(),
            players_to_include: self.players_to_include,
            permanent_archives: copy_archives(&self.permanent_archives),
            combat_counter: self.combat_counter,
            text_color: self.text_color,
            statut_maj: self.statut_maj.clone(),
            maj_disponible: self.maj_disponible,
            maj_prete_pour_redemarrage: self.maj_prete_pour_redemarrage,
            history_horizontal: self.history_horizontal,
        }
    }
}


/// The running state of the damage meter.
pub struct AppState {
    pub total_damage: Vec<(String, i32)>,
    pub history: Vec<(String, Vec<SpellEntry>)>,
    pub state_to_caster: Vec<(String, (String, String, i32))>,
    pub visible_players: Vec<String>,
    pub ko_players: Vec<String>,
    pub current_turn: i32,
    pub tour_reports_seen: i32,
    pub mode: String,
    pub players_to_include: i32,
    pub config: AppConfig,
    pub current_caster: Option<String>,
    pub current_spell: Option<String>,
    pub current_hits: Vec<i32>,
    pub has_started: bool,
    pub detected_main_player: Option<String>,
    pub main_player_first_turn_ignored: bool,
    pub showing_history: bool,
    pub current_tab: Tab,
    pub is_compact: bool,
    pub archives: Vec<CombatArchive>,
    pub permanent_archives: Vec<CombatArchive>,
    pub combat_counter: i32,
    pub multi_buffer: Vec<(String, BufferEntry)>,
    pub summon_to_owner: Vec<(String, String)>,
    pub pending_summon_owner: Option<String>,
}

/// What an `AppState` holds.
#[verifier::ext_equal]
pub struct CombatView {
    pub total_damage: Seq<(Seq<char>, i32)>,
    pub history: Seq<(Seq<char>, Seq<SpellRecord>)>,
    pub state_to_caster: Seq<(Seq<char>, (Seq<char>, Seq<char>, i32))>,
    pub visible_players: Seq<Seq<char>>,
    pub ko_players: Seq<Seq<char>>,
    pub current_turn: i32,
    pub tour_reports_seen: i32,
    pub mode: Seq<char>,
    pub players_to_include: i32,
    pub config: ConfigRecord,
    pub current_caster: Option<Seq<char>>,
    pub current_spell: Option<Seq<char>>,
    pub current_hits: Seq<i32>,
    pub has_started: bool,
    pub detected_main_player: Option<Seq<char>>,
    pub main_player_first_turn_ignored: bool,
    pub showing_history: bool,
    pub current_tab: Tab,
    pub is_compact: bool,
    pub archives: Seq<ArchiveRecord>,
    pub permanent_archives: Seq<ArchiveRecord>,
    pub combat_counter: i32,
    pub multi_buffer: Seq<(Seq<char>, BufferRecord)>,
    pub summon_to_owner: Seq<(Seq<char>, Seq<char>)>,
    pub pending_summon_owner: Option<Seq<char>>,
}

impl View for AppState {
    type V = CombatView;

    open spec fn view(&self) -> CombatView {
        CombatView {
            total_damage: totals_view(self.total_damage@),
            history: history_view(self.history@),
            state_to_caster: origins_view(self.state_to_caster@),
            visible_players: names_view(self.visible_players@),
            ko_players: names_view(self.ko_players@),
            current_turn: self.current_turn,
            tour_reports_seen: self.tour_reports_seen,
            mode: self.mode@,
            players_to_include: self.players_to_include,
            config: self.config@,
            current_caster: opt_text(self.current_caster),
            current_spell: opt_text(self.current_spell),
            current_hits: self.current_hits@,
            has_started: self.has_started,
            detected_main_player: opt_text(self.detected_main_player),
            main_player_first_turn_ignored: self.main_player_first_turn_ignored,
            showing_history: self.showing_history,
            current_tab: self.current_tab,
            is_compact: self.is_compact,
            archives: archives_view(self.archives@),
            permanent_archives: archives_view(self.permanent_archives@),
            combat_counter: self.combat_counter,
            multi_buffer: buffer_view(self.multi_buffer@),
            summon_to_owner: pairs_view(self.summon_to_owner@),
            pending_summon_owner: opt_text(self.pending_summon_owner),
        }
    }
}

impl CombatView {
    /// Each per-player, per-effect, per-event and per-summon list names each
    /// key once, and the player sets name each player once.
    pub open spec fn well_formed(&self) -> bool {
        &&& keys_unique(self.total_damage)
        &&& keys_unique(self.history)
        &&& keys_unique(self.state_to_caster)
        &&& keys_unique(self.multi_buffer)
        &&& keys_unique(self.summon_to_owner)
        &&& self.visible_players.no_duplicates()
        &&& self.ko_players.no_duplicates()
    }

    /// The state with all the data of the current combat cleared.
    pub open spec fn cleared(self) -> CombatView {
        CombatView {
            total_damage: Seq::empty(),
            history: Seq::empty(),
            state_to_caster: Seq::empty(),
            visible_players: Seq::empty(),
            ko_players: Seq::empty(),
            current_turn: 1,
            tour_reports_seen: 0,
            current_caster: None,
            current_spell: None,
            current_hits: Seq::empty(),
            has_started: false,
            detected_main_player: None,
            main_player_first_turn_ignored: false,
            multi_buffer: Seq::empty(),
            summon_to_owner: Seq::empty(),
            pending_summon_owner: None,
            ..self
        }
    }
}

/// The state a session starts in, for the given settings.
pub open spec fn initial_state(config: ConfigRecord) -> CombatView {
    CombatView {
        total_damage: Seq::empty(),
        history: Seq::empty(),
        state_to_caster: Seq::empty(),
        visible_players: Seq::empty(),
        ko_players: Seq::empty(),
        current_turn: 1,
        tour_reports_seen: 0,
        mode: config.mode,
        players_to_include: config.players_to_include,
        config: config,
        current_caster: None,
        current_spell: None,
        current_hits: Seq::empty(),
        has_started: false,
        detected_main_player: None,
        main_player_first_turn_ignored: false,
        showing_history: false,
        current_tab: Tab::Stats,
        is_compact: false,
        archives: Seq::empty(),
        permanent_archives: config.permanent_archives,
        combat_counter: config.combat_counter,
        multi_buffer: Seq::empty(),
        summon_to_owner: Seq::empty(),
        pending_summon_owner: None,
    }
}

impl AppState {
    /// The state of a new session.
    pub fn new(config: AppConfig) -> (r: AppState)
        ensures
            r@ == initial_state(config@),
            r@.well_formed(),
    {
        let r = AppState {
            total_damage: Vec::new(),
            history: Vec::new(),
            state_to_caster: Vec::new(),
            visible_players: Vec::new(),
            ko_players: Vec::new(),
            current_turn: 1,
            tour_reports_seen: 0,
            mode: config.mode.clone(),
            players_to_include: config.players_to_include,
            config: config.duplicate(),
            current_caster: None,
            current_spell: None,
            current_hits: Vec::new(),
            has_started: false,
            detected_main_player: None,
            main_player_first_turn_ignored: false,
            showing_history: false,
            current_tab: Tab::Stats,
            is_compact: false,
            archives: Vec::new(),
            permanent_archives: copy_archives(&config.permanent_archives),
            combat_counter: config.combat_counter,
            multi_buffer: Vec::new(),
            summon_to_owner: Vec::new(),
            pending_summon_owner: None,
        };
        assert(r@ =~= initial_state(config@));
        r
    }

    /// Clears everything that belongs to the current combat.
    pub fn full_reset(&mut self)
        ensures
            final(self)@ == old(self)@.cleared(),
            final(self)@.well_formed(),
    {
        self.total_damage.clear();
        self.history.clear();
        self.state_to_caster.clear();
        self.visible_players.clear();
        self.ko_players.clear();
        self.current_turn = 1;
        self.tour_reports_seen = 0;
        self.current_caster = None;
        self.current_spell = None;
        self.current_hits.clear();
        self.has_started = false;
        self.detected_main_player = None;
        self.main_player_first_turn_ignored = false;
        self.multi_buffer.clear();
        self.summon_to_owner.clear();
        self.pending_summon_owner = None;
        assert(self@ =~= old(self)@.cleared());
    }
}

} // verus!
