use rkiauh::overlays::update_overlays;
use rkiauh::sys::{OverlayStart, SysConfigurator};
use rkiauh::files::FileOp;

#[test]
fn test_armbian_env_modification() {
    let result = update_overlays("verbosity=1\noverlays=spi-spidev\n", &["pi-ts35"]);
    assert!(result.contains("overlays=spi-spidev pi-ts35"));
    assert_eq!(result, "verbosity=1\noverlays=spi-spidev pi-ts35\n");
}

#[test]
fn overlay_line_is_appended_where_missing() {
    assert_eq!(update_overlays("verbosity=1", &["a", "b"]), "verbosity=1\noverlays=a b\n");
    assert_eq!(update_overlays("", &["a"]), "overlays=a\n");
    assert_eq!(update_overlays("", &[]), "overlays=\n");
}

#[test]
fn new_overlays_are_added_once() {
    assert_eq!(
        update_overlays("overlays=a  b\tb\nx=1\n", &["b", "c", "c"]),
        "overlays=a b c\nx=1\n"
    );
}

#[test]
fn only_first_overlay_line_changes() {
    assert_eq!(
        update_overlays("overlays=a\noverlays=z\n", &["b"]),
        "overlays=a b\noverlays=z\n"
    );
}

#[test]
fn updating_twice_changes_nothing_more() {
    let once = update_overlays("verbosity=1\noverlays=spi-spidev\n", &["pi-ts35", "uart1"]);
    let twice = update_overlays(&once, &["pi-ts35", "uart1"]);
    assert_eq!(once, twice);
}

#[test]
fn repeated_new_overlays_are_kept_only_on_first_write() {
    let once = update_overlays("", &["a", "a"]);
    assert_eq!(once, "overlays=a a\n");
    assert_eq!(update_overlays(&once, &["a", "a"]), "overlays=a\n");
}

#[test]
fn carriage_return_lines_lose_it_on_rewrite() {
    let once = update_overlays("x=1\r", &["a"]);
    assert_eq!(once, "x=1\r\noverlays=a\n");
    assert_eq!(update_overlays(&once, &["a"]), "x=1\noverlays=a\n");
}

#[test]
fn dt_overlays_steps_back_up_then_write() {
    let c = SysConfigurator::new(false);
    let steps = c.dt_overlays_steps("/boot/armbianEnv.txt", "overlays=a\n", &["b"]);
    assert_eq!(steps.len(), 2);
    match &steps[0].op {
        FileOp::Copy { from, to } => {
            assert_eq!(from, "/boot/armbianEnv.txt");
            assert_eq!(to, "/boot/armbianEnv.bak");
        }
        _ => panic!("expected a copy"),
    }
    match &steps[1].op {
        FileOp::Write { path, contents } => {
            assert_eq!(path, "/boot/armbianEnv.txt");
            assert_eq!(contents, "overlays=a b\n");
        }
        _ => panic!("expected a write"),
    }
}

#[test]
fn dt_overlays_start_depends_on_mode_and_file() {
    assert!(matches!(SysConfigurator::new(true).dt_overlays_start(false), OverlayStart::Skip));
    assert!(matches!(SysConfigurator::new(false).dt_overlays_start(false), OverlayStart::Missing));
    assert!(matches!(SysConfigurator::new(false).dt_overlays_start(true), OverlayStart::Proceed));
    assert_eq!(rkiauh::sys::MISSING_ENV_MESSAGE, "armbianEnv.txt config space unavailable.");
}
