use std::collections::HashMap;

use rkiauh::commands::{Command, InstallUdevRuleCommand};
use rkiauh::files::{backup_path, failure_message, FileOp, FileStep, OnFailure};
use rkiauh::sys::SysConfigurator;

type Tree = HashMap<String, String>;

fn perform(fs: &mut Tree, op: &FileOp) -> Result<(), String> {
    match op {
        FileOp::Copy { from, to } => match fs.get(from).cloned() {
            Some(c) => {
                fs.insert(to.clone(), c);
                Ok(())
            }
            None => Err(format!("{}: not found", from)),
        },
        FileOp::Write { path, contents } => {
            fs.insert(path.clone(), contents.clone());
            Ok(())
        }
        FileOp::Remove { path } => match fs.remove(path) {
            Some(_) => Ok(()),
            None => Err(format!("{}: not found", path)),
        },
    }
}

fn run(fs: &mut Tree, steps: Vec<FileStep>) -> Result<(), String> {
    for step in steps.iter() {
        if let Err(e) = perform(fs, &step.op) {
            if let Some(m) = failure_message(step, e) {
                return Err(m);
            }
        }
    }
    Ok(())
}

const RULE: &str = r#"SUBSYSTEM=="input", ATTRS{name}=="PI-TS35", ENV{LIBINPUT_CALIBRATION_MATRIX}="1 0 0 0 1 0""#;

#[test]
fn test_udev_rule_generation() {
    let configurer = SysConfigurator::new(false);
    let path = "/tmp/99-test-pi-ts35.rules";
    let mut fs = Tree::new();
    let exists = fs.contains_key(path);
    let res = run(&mut fs, configurer.udev_rule_steps(path, RULE, exists));
    assert!(res.is_ok());
    assert!(fs.contains_key(path));
    assert_eq!(fs[path], RULE);
}

#[test]
fn udev_rule_replacing_a_file_keeps_a_backup() {
    let configurer = SysConfigurator::new(false);
    let path = "/etc/udev/rules.d/99-touch.rules";
    let mut fs = Tree::new();
    fs.insert(path.to_string(), "old".to_string());
    let steps = configurer.udev_rule_steps(path, "new", true);
    assert_eq!(steps.len(), 2);
    run(&mut fs, steps).unwrap();
    assert_eq!(fs[path], "new");
    assert_eq!(fs["/etc/udev/rules.d/99-touch.bak"], "old");
}

#[test]
fn simulation_writes_nothing() {
    let configurer = SysConfigurator::new(true);
    assert!(configurer.udev_rule_steps("/x.rules", "r", true).is_empty());
}

#[test]
fn backup_path_replaces_extension() {
    assert_eq!(backup_path("/etc/udev/rules.d/99-a.rules"), "/etc/udev/rules.d/99-a.bak");
    assert_eq!(backup_path("/boot/armbianEnv.txt"), "/boot/armbianEnv.bak");
    assert_eq!(backup_path("noext"), "noext.bak");
    assert_eq!(backup_path("x.bak"), "x.bak");
}

#[test]
fn failure_messages_follow_the_step() {
    let stop = FileStep { op: FileOp::Remove { path: "p".to_string() }, on_failure: OnFailure::Stop };
    assert_eq!(failure_message(&stop, "e".to_string()), Some("e".to_string()));
    let with = FileStep {
        op: FileOp::Remove { path: "p".to_string() },
        on_failure: OnFailure::StopWith("ctx".to_string()),
    };
    assert_eq!(failure_message(&with, "e".to_string()), Some("ctx: e".to_string()));
    let ignore = FileStep { op: FileOp::Remove { path: "p".to_string() }, on_failure: OnFailure::Ignore };
    assert_eq!(failure_message(&ignore, "e".to_string()), None);
}

#[test]
fn new_command_is_not_executed() {
    let c = InstallUdevRuleCommand::new("/r.rules".to_string(), "x".to_string(), true);
    assert!(!c.is_executed());
    assert_eq!(c.path(), "/r.rules");
    assert_eq!(c.content(), "x");
    assert!(c.configurer().simulation_mode);
}

#[test]
fn execute_records_success_and_reports_failure() {
    let mut c = InstallUdevRuleCommand::new("/r.rules".to_string(), "x".to_string(), false);
    assert_eq!(
        c.execute(Err("permission denied".to_string())),
        Err("Failed to configure udev rule safely: permission denied".to_string())
    );
    assert!(!c.is_executed());
    assert_eq!(c.execute(Ok(())), Ok(()));
    assert!(c.is_executed());
}

#[test]
fn rollback_before_execute_does_nothing() {
    let c = InstallUdevRuleCommand::new("/r.rules".to_string(), "x".to_string(), false);
    assert!(c.rollback_steps(true).is_empty());
}

#[test]
fn rollback_restores_the_backup() {
    let mut c = InstallUdevRuleCommand::new("/r.rules".to_string(), "new".to_string(), false);
    c.execute(Ok(())).unwrap();
    let steps = c.rollback_steps(true);
    assert_eq!(steps.len(), 2);
    assert_eq!(
        steps[0].on_failure,
        OnFailure::StopWith("Rollback failed, system may be in unexpected state".to_string())
    );
    assert_eq!(steps[1].op, FileOp::Remove { path: "/r.bak".to_string() });
    assert_eq!(steps[1].on_failure, OnFailure::StopWith("Could not purge backup artifact".to_string()));
    let mut fs = Tree::new();
    fs.insert("/r.rules".to_string(), "new".to_string());
    fs.insert("/r.bak".to_string(), "old".to_string());
    let outcome = run(&mut fs, steps);
    assert_eq!(c.rollback(outcome), Ok(()));
    assert!(!c.is_executed());
    assert_eq!(fs.len(), 1);
    assert_eq!(fs["/r.rules"], "old");
}

#[test]
fn rollback_failure_keeps_the_command_executed() {
    let mut c = InstallUdevRuleCommand::new("/r.rules".to_string(), "new".to_string(), false);
    c.execute(Ok(())).unwrap();
    let mut fs = Tree::new();
    let outcome = run(&mut fs, c.rollback_steps(true));
    assert_eq!(
        outcome,
        Err("Rollback failed, system may be in unexpected state: /r.bak: not found".to_string())
    );
    assert!(c.rollback(outcome).is_err());
    assert!(c.is_executed());
}

#[test]
fn rollback_without_backup_removes_the_rule() {
    let mut c = InstallUdevRuleCommand::new("/r.rules".to_string(), "new".to_string(), false);
    c.execute(Ok(())).unwrap();
    let steps = c.rollback_steps(false);
    assert_eq!(steps.len(), 1);
    assert_eq!(steps[0].op, FileOp::Remove { path: "/r.rules".to_string() });
    assert_eq!(steps[0].on_failure, OnFailure::Ignore);
    let mut fs = Tree::new();
    assert_eq!(run(&mut fs, steps), Ok(()));
}

#[test]
fn execute_then_rollback_restores_tree() {
    for existed in [false, true] {
        let mut fs = Tree::new();
        fs.insert("/other".to_string(), "o".to_string());
        if existed {
            fs.insert("/r.rules".to_string(), "old".to_string());
        }
        let before = fs.clone();
        let mut c = InstallUdevRuleCommand::new("/r.rules".to_string(), "new".to_string(), false);
        let exists = fs.contains_key("/r.rules");
        let done = run(&mut fs, c.execute_steps(exists));
        c.execute(done).unwrap();
        assert_eq!(fs["/r.rules"], "new");
        let backup_exists = fs.contains_key(&c.backup_path());
        let outcome = run(&mut fs, c.rollback_steps(backup_exists));
        c.rollback(outcome).unwrap();
        assert_eq!(fs, before);
    }
}

#[test]
fn simulated_command_rolls_back_without_steps() {
    let mut c = InstallUdevRuleCommand::new("/r.rules".to_string(), "new".to_string(), true);
    assert!(c.execute_steps(false).is_empty());
    c.execute(Ok(())).unwrap();
    assert!(c.rollback_steps(true).is_empty());
    c.rollback(Ok(())).unwrap();
    assert!(!c.is_executed());
}

#[test]
fn second_write_keeps_the_first_rule() {
    let configurer = SysConfigurator::new(false);
    let path = "/etc/udev/rules.d/99-touch.rules";
    let mut fs = Tree::new();
    let exists = fs.contains_key(path);
    run(&mut fs, configurer.udev_rule_steps(path, "first", exists)).unwrap();
    let exists = fs.contains_key(path);
    run(&mut fs, configurer.udev_rule_steps(path, "second", exists)).unwrap();
    assert_eq!(fs[path], "second");
    assert_eq!(fs["/etc/udev/rules.d/99-touch.bak"], "first");
    assert_eq!(fs.len(), 2);
}

#[test]
fn backup_of_plain_names_ends_in_bak() {
    for p in ["a", "x/y.rules", "/boot/armbianEnv.txt", ".hidden1", "a..b", "dir.d/file"] {
        let b = backup_path(p);
        assert!(b.ends_with(".bak"), "{} gives {}", p, b);
        assert_ne!(b, p);
    }
}
