# wakfu_calculateur

A damage meter for the game Wakfu. It follows the game's combat log, credits
every hit to the player who dealt it (directly, through a poison or other
state, or through a summon), counts turns, removes the duplicate lines that two
game clients write in multi-account mode, and keeps archives of past combats.

## Layout

- `src/` is the library, verified with Verus:
  - `text.rs`, `keyed.rs`: text primitives and name-keyed lists;
  - `parser.rs`, `combat_log.rs`: the line expressions and what each kind of
    combat line does to the state;
  - `ledger.rs`, `degats_*.rs`, `actions.rs`: how a hit enters the ledger, the
    events (knock-out, revival, turn report, hit) and the de-duplication
    buffer;
  - `model.rs`, `controls.rs`, `archiving.rs`, `updates.rs`, `tail.rs`,
    `icon.rs`: the state, the settings, what the buttons do, combat archives,
    the update status, log following and the window icon;
  - `decompose.rs`: canonical decomposition (NFD) with its tables, used to
    sort spell names whatever their accents;
  - `recap.rs`, `stats.rs`: the summaries that the tabs display;
  - `laws.rs`: properties that hold across operations (an event seen by two
    clients counts once, totals always equal the sum of the entries, and more).
- `tests/` runs the library on concrete log lines and values.
- `app/` is the program around it: file reading, settings on disk, the update
  download and the egui window.
