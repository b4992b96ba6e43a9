//! The update status shown in the settings: what a start after an install,
//! a check for a newer release and an install do to the settings.

use vstd::prelude::*;
use crate::model::{AppConfig, ConfigRecord};
use crate::text::text_eq;

verus! {

/// What asking the release server for the latest version gave.
pub enum UpdateCheck {
    /// The updater could not be configured.
    Unconfigured,
    /// The updater was configured but the latest release could not be read.
    NoAnswer,
    /// The version of the latest release.
    Latest(String),
}

/// What an install attempt gave.
pub enum InstallOutcome {
    /// A newer version, this one, was installed.
    Installed(String),
    /// Nothing was installed: the running version is the latest.
    AlreadyCurrent,
    /// The install failed with this message.
    Failed(String),
}

/// The status "Version {v} disponible !".
pub open spec fn available_status(v: Seq<char>) -> Seq<char> {
    "Version "@ + v + " disponible !"@
}

/// The settings after a start: a start that follows an install clears the
/// install flags and reports the application as up to date.
pub open spec fn restarted(c: ConfigRecord) -> ConfigRecord {
    if c.maj_prete_pour_redemarrage {
        ConfigRecord {
            maj_prete_pour_redemarrage: false,
            maj_disponible: false,
            statut_maj: "\u{c0} jour"@,
            ..c
        }
    } else {
        c
    }
}

/// The settings after the check made at start-up, for the running version
/// `current`: a newer release is announced, the same one reported as up to
/// date, an updater that cannot be configured reported, and an unanswered
/// query changes nothing.
pub open spec fn startup_checked(c: ConfigRecord, current: Seq<char>, latest: Option<Seq<char>>, configured: bool) -> ConfigRecord {
    if !configured {
        ConfigRecord { statut_maj: "Impossible de v\u{e9}rifier les mises \u{e0} jour"@, ..c }
    } else {
        match latest {
            None => c,
            Some(v) => if v != current {
                ConfigRecord { maj_disponible: true, statut_maj: available_status(v), ..c }
            } else {
                ConfigRecord { statut_maj: "\u{c0} jour"@, ..c }
            },
        }
    }
}

/// The settings after a check asked from the settings tab: the status first
/// says that the check runs, then a newer release is announced, the same
/// one reported as current, and an unanswered query reported as a
/// connection error; an updater that cannot be configured leaves the
/// status at "checking".
pub open spec fn manually_checked(c: ConfigRecord, current: Seq<char>, latest: Option<Seq<char>>, configured: bool) -> ConfigRecord {
    let running = ConfigRecord { statut_maj: "V\u{e9}rification en cours..."@, ..c };
    if !configured {
        running
    } else {
        match latest {
            None => ConfigRecord { statut_maj: "Erreur de connexion"@, ..running },
            Some(v) => if v != current {
                ConfigRecord { maj_disponible: true, statut_maj: available_status(v), ..running }
            } else {
                ConfigRecord { statut_maj: "D\u{e9}j\u{e0} \u{e0} jour !"@, ..running }
            },
        }
    }
}

/// The settings after an install attempt: an installed version waits for a
/// restart, an attempt that installed nothing is reported as current, a
/// failure shows its message.
pub open spec fn install_recorded(c: ConfigRecord, installed: Option<Seq<char>>, failure: Option<Seq<char>>) -> ConfigRecord {
    match failure {
        Some(e) => ConfigRecord { statut_maj: "Erreur : "@ + e, ..c },
        None => match installed {
            Some(v) => ConfigRecord {
                statut_maj: "Succ\u{e8}s ! v"@ + v + " install\u{e9}e. Red\u{e9}marrez."@,
                maj_disponible: false,
                maj_prete_pour_redemarrage: true,
                ..c
            },
            None => ConfigRecord { statut_maj: "D\u{e9}j\u{e0} \u{e0} jour"@, ..c },
        },
    }
}

/// The latest version that a check reports, if any.
pub open spec fn check_latest(o: UpdateCheck) -> Option<Seq<char>> {
    match o {
        UpdateCheck::Latest(v) => Some(v@),
        _ => None,
    }
}

/// Whether the updater could be configured.
pub open spec fn check_configured(o: UpdateCheck) -> bool {
    !(o is Unconfigured)
}

fn announce(v: &String) -> (r: String)
    ensures
        r@ == available_status(v@),
{
    let mut s = "Version ".to_owned();
    s.append(v.as_str());
    s.append(" disponible !");
    s
}

impl AppConfig {
    /// Clears the install flags on the first start after an install; tells
    /// whether the settings have to be saved.
    pub fn after_restart(&mut self) -> (save: bool)
        ensures
            final(self)@ == restarted(old(self)@),
            save == old(self)@.maj_prete_pour_redemarrage,
    {
        if self.maj_prete_pour_redemarrage {
            self.maj_prete_pour_redemarrage = false;
            self.maj_disponible = false;
            self.statut_maj = "\u{c0} jour".to_owned();
            true
        } else {
            false
        }
    }

    /// Records the outcome of the check made at start-up, the running version
    /// being `current`.
    pub fn record_startup_check(&mut self, current: &str, outcome: UpdateCheck)
        ensures
            final(self)@ == startup_checked(old(self)@, current@, check_latest(outcome), check_configured(outcome)),
    {
        match outcome {
            UpdateCheck::Unconfigured => {
                self.statut_maj = "Impossible de v\u{e9}rifier les mises \u{e0} jour".to_owned();
            },
            UpdateCheck::NoAnswer => {},
            UpdateCheck::Latest(v) => {
                if !text_eq(v.as_str(), current) {
                    self.maj_disponible = true;
                    self.statut_maj = announce(&v);
                } else {
                    self.statut_maj = "\u{c0} jour".to_owned();
                }
            },
        }
    }

    /// Records the outcome of a check asked from the settings tab, the running
    /// version being `current`.
    pub fn record_manual_check(&mut self, current: &str, outcome: UpdateCheck)
        ensures
            final(self)@ == manually_checked(old(self)@, current@, check_latest(outcome), check_configured(outcome)),
    {
        self.statut_maj = "V\u{e9}rification en cours...".to_owned();
        match outcome {
            UpdateCheck::Unconfigured => {},
            UpdateCheck::NoAnswer => {
                self.statut_maj = "Erreur de connexion".to_owned();
            },
            UpdateCheck::Latest(v) => {
                if !text_eq(v.as_str(), current) {
                    self.maj_disponible = true;
                    self.statut_maj = announce(&v);
                } else {
                    self.statut_maj = "D\u{e9}j\u{e0} \u{e0} jour !".to_owned();
                }
            },
        }
    }

    /// Records an install attempt; tells whether the settings have to be saved
    /// (a version was installed and waits for a restart).
    pub fn record_install(&mut self, outcome: InstallOutcome) -> (save: bool)
        ensures
            final(self)@ == install_recorded(
                old(self)@,
                match outcome {
                    InstallOutcome::Installed(v) => Some(v@),
                    _ => None,
                },
                match outcome {
                    InstallOutcome::Failed(e) => Some(e@),
                    _ => None,
                },
            ),
            save == (outcome is Installed),
    {
        match outcome {
            InstallOutcome::Installed(v) => {
                let mut s = "Succ\u{e8}s ! v".to_owned();
                s.append(v.as_str());
                s.append(" install\u{e9}e. Red\u{e9}marrez.");
                self.statut_maj = s;
                self.maj_disponible = false;
                self.maj_prete_pour_redemarrage = true;
                true
            },
            InstallOutcome::AlreadyCurrent => {
                self.statut_maj = "D\u{e9}j\u{e0} \u{e0} jour".to_owned();
                false
            },
            InstallOutcome::Failed(e) => {
                let mut s = "Erreur : ".to_owned();
                s.append(e.as_str());
                self.statut_maj = s;
                false
            },
        }
    }
}

} // verus!
