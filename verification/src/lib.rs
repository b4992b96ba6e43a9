//! Damage bookkeeping for Wakfu combat logs: the log-line interpretation,
//! the per-player damage ledger, the multi-account de-duplication buffer,
//! the combat archives and the summaries that the interface displays.

pub mod actions;
pub mod archiving;
pub mod combat_log;
pub mod controls;
pub mod degats_directs;
pub mod degats_indirects;
pub mod decompose;
pub mod degats_invocations;
pub mod icon;
pub mod keyed;
pub mod laws;
pub mod ledger;
pub mod model;
pub mod parser;
pub mod recap;
pub mod stats;
pub mod tail;
pub mod text;
pub mod updates;
