use rkiauh::cli::simulation_requested;
use rkiauh::dashboard::{
    component_name, gauge_percent, key_for_char, on_key, status_after, status_color, title_text, AppState,
    DashboardAction, DashboardKey, StatusColor,
};
use rkiauh::installer::{
    stages, ComponentAction, ComponentInstaller, FluiddInstaller, RKlippInstaller, Stage,
};
use rkiauh::systemd::{unit_call, unit_exists_query, UnitQuery, UnitVerb};
use rkiauh::tasks::{merge_outcome, MergeOutcome};

#[test]
fn offline_flag_or_other_os_simulates() {
    let args = vec!["rkiauh".to_string(), "--offline".to_string()];
    assert!(simulation_requested(&args, true));
    assert!(!simulation_requested(&vec!["rkiauh".to_string()], true));
    assert!(simulation_requested(&vec!["rkiauh".to_string()], false));
    assert!(!simulation_requested(&vec!["--offline2".to_string()], true));
}

#[test]
fn unit_calls_only_when_connected_for_real() {
    assert!(unit_call(true, true, UnitVerb::Start, "klipper.service").is_none());
    assert!(unit_call(false, false, UnitVerb::Stop, "klipper.service").is_none());
    let c = unit_call(false, true, UnitVerb::Restart, "klipper.service").unwrap();
    assert_eq!(c.verb, UnitVerb::Restart);
    assert_eq!(c.unit, "klipper.service");
    assert_eq!(c.mode, "replace");
}

#[test]
fn unit_existence_in_simulation_is_assumed() {
    assert!(matches!(unit_exists_query(true, "x.service"), UnitQuery::Known(true)));
    match unit_exists_query(false, "x.service") {
        UnitQuery::Ask(n) => assert_eq!(n, "x.service"),
        _ => panic!("expected a question"),
    }
}

#[test]
fn dashboard_text_and_colours() {
    assert_eq!(title_text(false), "rkiauh Administration Platform");
    assert_eq!(
        title_text(true),
        "rkiauh Administration Platform - Offline Target System Verification"
    );
    assert_eq!(status_color(&"active".to_string()), StatusColor::Green);
    assert_eq!(status_color(&"inactive".to_string()), StatusColor::Red);
    assert_eq!(gauge_percent(42), 42);
    assert_eq!(gauge_percent(100), 100);
    assert_eq!(gauge_percent(250), 100);
}

#[test]
fn dashboard_starts_with_the_five_components() {
    let s = AppState::new(true);
    assert!(s.simulation_mode);
    assert_eq!(
        s.services,
        vec![
            ("r_klipp.service".to_string(), "unknown".to_string()),
            ("rusted_moonraker.service".to_string(), "unknown".to_string()),
            ("rKlipperScreen.service".to_string(), "unknown".to_string()),
            ("fluidd".to_string(), "static".to_string()),
            ("mainsail".to_string(), "static".to_string()),
        ]
    );
}

#[test]
fn dashboard_keys() {
    assert_eq!(key_for_char('k'), DashboardKey::Up);
    assert_eq!(key_for_char('j'), DashboardKey::Down);
    assert_eq!(key_for_char('q'), DashboardKey::Quit);
    assert_eq!(key_for_char('s'), DashboardKey::Start);
    assert_eq!(key_for_char('t'), DashboardKey::Stop);
    assert_eq!(key_for_char('r'), DashboardKey::Restart);
    assert_eq!(key_for_char('x'), DashboardKey::Other);
    assert_eq!(on_key(0, 5, DashboardKey::Up), DashboardAction::Select(4));
    assert_eq!(on_key(2, 5, DashboardKey::Up), DashboardAction::Select(1));
    assert_eq!(on_key(4, 5, DashboardKey::Down), DashboardAction::Select(0));
    assert_eq!(on_key(1, 5, DashboardKey::Down), DashboardAction::Select(2));
    assert_eq!(on_key(1, 5, DashboardKey::Quit), DashboardAction::Quit);
    assert_eq!(on_key(1, 5, DashboardKey::Stop), DashboardAction::Control(UnitVerb::Stop));
    assert_eq!(on_key(1, 5, DashboardKey::Other), DashboardAction::Nothing);
    assert_eq!(status_after(UnitVerb::Start), "active");
    assert_eq!(status_after(UnitVerb::Restart), "active");
    assert_eq!(status_after(UnitVerb::Stop), "inactive");
}

#[test]
fn dashboard_install_and_update_keys() {
    assert_eq!(key_for_char('i'), DashboardKey::Install);
    assert_eq!(key_for_char('u'), DashboardKey::Update);
    assert_eq!(
        on_key(3, 5, DashboardKey::Install),
        DashboardAction::Run(ComponentAction::Install)
    );
    assert_eq!(
        on_key(0, 5, DashboardKey::Update),
        DashboardAction::Run(ComponentAction::Update)
    );
}

#[test]
fn rows_name_their_components() {
    assert_eq!(component_name("r_klipp.service"), "r_klipp");
    assert_eq!(component_name("rKlipperScreen.service"), "rKlipperScreen");
    assert_eq!(component_name("fluidd"), "fluidd");
    assert_eq!(component_name("mainsail"), "mainsail");
    assert_eq!(component_name(".service"), "");
    assert_eq!(component_name("service"), "service");
}

#[test]
fn install_and_update_stages() {
    assert_eq!(
        stages(ComponentAction::Install, true),
        vec![Stage::Clone, Stage::Compile, Stage::InstallService]
    );
    assert_eq!(
        stages(ComponentAction::Update, true),
        vec![Stage::Pull, Stage::Compile, Stage::RestartService]
    );
    assert_eq!(stages(ComponentAction::Update, false), vec![Stage::Pull, Stage::Compile]);
    let k = RKlippInstaller { repo_url: "u".to_string(), local_path: "p".to_string() };
    assert_eq!(k.service_unit(), Some("r_klipp.service".to_string()));
    let f = FluiddInstaller { repo_url: "u".to_string(), local_path: "p".to_string() };
    assert_eq!(f.service_unit(), None);
}

#[test]
fn merge_analysis_is_classified() {
    assert_eq!(merge_outcome(true, false), MergeOutcome::FastForward);
    assert_eq!(merge_outcome(true, true), MergeOutcome::FastForward);
    assert_eq!(merge_outcome(false, true), MergeOutcome::UpToDate);
    assert_eq!(merge_outcome(false, false), MergeOutcome::Diverged);
}

#[test]
fn stages_stop_at_the_first_failure() {
    assert_eq!(rkiauh::installer::next_stage(3, 0, true), Some(1));
    assert_eq!(rkiauh::installer::next_stage(3, 1, false), None);
    assert_eq!(rkiauh::installer::next_stage(3, 2, true), None);
}
