use wakfu_calculateur::icon::{get_embedded_window_icon, icon_from};
use wakfu_calculateur::model::AppConfig;
use wakfu_calculateur::tail::LogCursor;
use wakfu_calculateur::updates::{InstallOutcome, UpdateCheck};

const TWO_PIXELS_PNG: [u8; 70] = [
    137, 80, 78, 71, 13, 10, 26, 10, 0, 0, 0, 13, 73, 72, 68, 82, 0, 0, 0, 2, 0, 0, 0, 1, 8, 2, 0, 0, 0, 123, 64,
    232, 221, 0, 0, 0, 13, 73, 68, 65, 84, 120, 156, 99, 248, 207, 0, 4, 255, 1, 7, 0, 1, 255, 226, 35, 158, 89, 0,
    0, 0, 0, 73, 69, 78, 68, 174, 66, 96, 130,
];

#[test]
fn icon_is_decoded_to_rgba() {
    let icon = get_embedded_window_icon(&TWO_PIXELS_PNG);
    assert_eq!(icon.width, 2);
    assert_eq!(icon.height, 1);
    assert_eq!(icon.rgba, vec![255, 0, 0, 255, 0, 0, 255, 255]);
    assert_eq!(icon.rgba.len(), 4 * icon.width as usize * icon.height as usize);
}

#[test]
fn undecodable_icon_is_empty() {
    let icon = get_embedded_window_icon(&[1, 2, 3, 4]);
    assert_eq!((icon.rgba.len(), icon.width, icon.height), (0, 0, 0));
    let icon = icon_from(Some((vec![9, 9, 9, 9], 1, 1)));
    assert_eq!((icon.rgba, icon.width, icon.height), (vec![9, 9, 9, 9], 1, 1));
}

#[test]
fn cursor_reads_only_what_was_added() {
    let mut c = LogCursor::new();
    assert!(!c.switches_to(""));
    assert!(c.switches_to("wakfu.log"));
    c.follow("wakfu.log".to_string(), Some(100));
    assert!(!c.switches_to("wakfu.log"));
    assert_eq!(c.new_data(100), None);
    assert_eq!(c.new_data(150), Some(100));
    assert_eq!(c.last_size, 150);
    assert_eq!(c.new_data(120), None);
    assert_eq!(c.last_size, 150);
    c.follow("autre.log".to_string(), None);
    assert_eq!(c.current_path, "autre.log");
    assert_eq!(c.last_size, 150);
}

#[test]
fn restart_after_install_clears_the_flags() {
    let mut c = AppConfig::default();
    assert!(!c.after_restart());
    assert_eq!(c.statut_maj, "Recherche de mise à jour...");
    c.maj_prete_pour_redemarrage = true;
    c.maj_disponible = true;
    assert!(c.after_restart());
    assert!(!c.maj_prete_pour_redemarrage && !c.maj_disponible);
    assert_eq!(c.statut_maj, "À jour");
}

#[test]
fn startup_check_outcomes() {
    let mut c = AppConfig::default();
    c.record_startup_check("1.0.0", UpdateCheck::NoAnswer);
    assert_eq!(c.statut_maj, "Recherche de mise à jour...");
    c.record_startup_check("1.0.0", UpdateCheck::Latest("1.0.0".to_string()));
    assert_eq!(c.statut_maj, "À jour");
    assert!(!c.maj_disponible);
    c.record_startup_check("1.0.0", UpdateCheck::Latest("1.2.0".to_string()));
    assert_eq!(c.statut_maj, "Version 1.2.0 disponible !");
    assert!(c.maj_disponible);
    c.record_startup_check("1.0.0", UpdateCheck::Unconfigured);
    assert_eq!(c.statut_maj, "Impossible de vérifier les mises à jour");
}

#[test]
fn manual_check_outcomes() {
    let mut c = AppConfig::default();
    c.record_manual_check("2.0.0", UpdateCheck::Unconfigured);
    assert_eq!(c.statut_maj, "Vérification en cours...");
    c.record_manual_check("2.0.0", UpdateCheck::NoAnswer);
    assert_eq!(c.statut_maj, "Erreur de connexion");
    c.record_manual_check("2.0.0", UpdateCheck::Latest("2.0.0".to_string()));
    assert_eq!(c.statut_maj, "Déjà à jour !");
    assert!(!c.maj_disponible);
    c.record_manual_check("2.0.0", UpdateCheck::Latest("2.1.0".to_string()));
    assert_eq!(c.statut_maj, "Version 2.1.0 disponible !");
    assert!(c.maj_disponible);
}

#[test]
fn install_outcomes() {
    let mut c = AppConfig::default();
    c.maj_disponible = true;
    assert!(!c.record_install(InstallOutcome::Failed("réseau".to_string())));
    assert_eq!(c.statut_maj, "Erreur : réseau");
    assert!(!c.record_install(InstallOutcome::AlreadyCurrent));
    assert_eq!(c.statut_maj, "Déjà à jour");
    assert!(c.maj_disponible);
    assert!(c.record_install(InstallOutcome::Installed("3.1.4".to_string())));
    assert_eq!(c.statut_maj, "Succès ! v3.1.4 installée. Redémarrez.");
    assert!(!c.maj_disponible && c.maj_prete_pour_redemarrage);
}
