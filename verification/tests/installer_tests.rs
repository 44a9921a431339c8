use rkiauh::installer::{
    ClonePhase, CompilePhase, ComponentInstaller, FluiddInstaller, MainsailInstaller,
    PullPhase, RKlippInstaller, RKlipperScreenInstaller, RustedMoonrakerInstaller,
    ServicePhase, R_KLIPP_UNIT,
};
use rkiauh::tasks::{event_fits, Action, Event, MergeOutcome, Request, TaskError};

fn plain(cause: &str) -> TaskError {
    TaskError { context: None, cause: cause.to_string() }
}

fn ctx(context: &str, cause: &str) -> TaskError {
    TaskError { context: Some(context.to_string()), cause: cause.to_string() }
}

/// Runs a task with the answers given, in order, and returns its log and requests.
fn drive<P>(
    start: P,
    awaiting: impl Fn(&P) -> rkiauh::tasks::Awaiting,
    step: impl Fn(P, Event) -> (P, Action),
    answers: Vec<Event>,
) -> (Vec<String>, Vec<Request>) {
    let mut logs = Vec::new();
    let mut requests = Vec::new();
    let mut phase = start;
    let mut event = Event::Start;
    let mut answers = answers.into_iter();
    loop {
        assert!(event_fits(awaiting(&phase), &event), "{:?}", event);
        let (next, action) = step(phase, event);
        logs.extend(action.logs);
        let finished = matches!(action.request, Request::Finish(_));
        requests.push(action.request);
        if finished {
            assert!(answers.next().is_none());
            return (logs, requests);
        }
        phase = next;
        event = answers.next().expect("an answer for each request");
    }
}

fn klipp() -> RKlippInstaller {
    RKlippInstaller {
        repo_url: "https://github.com/FaezBarghasa/r_klipp".to_string(),
        local_path: "/home/pi/r_klipp".to_string(),
    }
}

#[test]
fn names_and_paths() {
    let k = klipp();
    assert_eq!(k.name(), "r_klipp");
    assert_eq!(k.get_repo_url(), "https://github.com/FaezBarghasa/r_klipp");
    assert_eq!(k.get_local_path(), "/home/pi/r_klipp");
    let m = RustedMoonrakerInstaller { repo_url: "u".to_string(), local_path: "p".to_string() };
    assert_eq!(m.name(), "rusted_moonraker");
    let f = FluiddInstaller { repo_url: "u".to_string(), local_path: "p".to_string() };
    assert_eq!(f.name(), "fluidd");
    let s = RKlipperScreenInstaller { repo_url: "u".to_string(), local_path: "p".to_string() };
    assert_eq!(s.name(), "rKlipperScreen");
    let ms = MainsailInstaller { repo_url: "u".to_string(), local_path: "p".to_string() };
    assert_eq!(ms.name(), "mainsail");
}

#[test]
fn clone_skips_existing_path() {
    let k = klipp();
    let (logs, requests) = drive(
        ClonePhase::Begin,
        |p| p.awaiting(),
        |p, e| k.clone_step(p, e),
        vec![Event::Exists(true)],
    );
    assert_eq!(
        logs,
        vec![
            "Cloning https://github.com/FaezBarghasa/r_klipp into /home/pi/r_klipp...".to_string(),
            "Path /home/pi/r_klipp already exists. Skipping clone.".to_string(),
        ]
    );
    assert_eq!(requests.last(), Some(&Request::Finish(Ok(()))));
}

#[test]
fn clone_clones_missing_path() {
    let k = klipp();
    let (logs, requests) = drive(
        ClonePhase::Begin,
        |p| p.awaiting(),
        |p, e| k.clone_step(p, e),
        vec![Event::Exists(false), Event::Done],
    );
    assert_eq!(logs[1], "Successfully cloned r_klipp!");
    assert_eq!(
        requests[1],
        Request::Clone {
            url: "https://github.com/FaezBarghasa/r_klipp".to_string(),
            path: "/home/pi/r_klipp".to_string(),
        }
    );
}

#[test]
fn clone_failure_is_reported() {
    let k = klipp();
    let (_, requests) = drive(
        ClonePhase::Begin,
        |p| p.awaiting(),
        |p, e| k.clone_step(p, e),
        vec![Event::Exists(false), Event::Failed("network down".to_string())],
    );
    assert_eq!(requests.last(), Some(&Request::Finish(Err(plain("network down")))));
}

#[test]
fn pull_falls_back_to_main_and_fast_forwards() {
    let k = klipp();
    let (logs, requests) = drive(
        PullPhase::Begin,
        |p| p.awaiting(),
        |p, e| k.pull_step(p, e),
        vec![
            Event::Done,
            Event::Done,
            Event::Failed("no master".to_string()),
            Event::Done,
            Event::Analysis(MergeOutcome::FastForward, "abc123".to_string()),
            Event::BranchExists(false),
            Event::Done,
        ],
    );
    assert_eq!(
        logs,
        vec![
            "Updating repository at /home/pi/r_klipp...",
            "Fetching latest updates from remote...",
            "Fast-forward merge possible. Merging...",
            "Update completed via fast-forward.",
        ]
    );
    assert_eq!(requests[0], Request::OpenRepo("/home/pi/r_klipp".to_string()));
    assert_eq!(requests[1], Request::FindRemote("origin".to_string()));
    assert_eq!(requests[2], Request::Fetch("master".to_string()));
    assert_eq!(requests[3], Request::Fetch("main".to_string()));
    assert_eq!(requests[4], Request::AnalyzeFetch);
    assert_eq!(requests[5], Request::CheckReference("refs/heads/master".to_string()));
    assert_eq!(
        requests[6],
        Request::FastForward {
            reference: "refs/heads/main".to_string(),
            message: "Fast-Forward: Setting to abc123".to_string(),
        }
    );
    assert_eq!(requests[7], Request::Finish(Ok(())));
}

#[test]
fn pull_up_to_date_and_diverged() {
    let k = klipp();
    let (logs, _) = drive(
        PullPhase::Begin,
        |p| p.awaiting(),
        |p, e| k.pull_step(p, e),
        vec![Event::Done, Event::Done, Event::Done, Event::Analysis(MergeOutcome::UpToDate, "x".to_string())],
    );
    assert_eq!(logs.last().unwrap(), "Repository is already up-to-date.");
    let (logs, requests) = drive(
        PullPhase::Begin,
        |p| p.awaiting(),
        |p, e| k.pull_step(p, e),
        vec![
            Event::Done,
            Event::Done,
            Event::Done,
            Event::Analysis(MergeOutcome::Diverged, "x".to_string()),
            Event::Done,
        ],
    );
    assert_eq!(logs[2], "Non-fast-forward state. Performing hard reset to origin tip...");
    assert_eq!(logs[3], "Hard reset completed successfully.");
    assert_eq!(requests[4], Request::HardReset);
}

#[test]
fn pull_reports_errors() {
    let k = klipp();
    let run = |answers: Vec<Event>| {
        drive(PullPhase::Begin, |p| p.awaiting(), |p, e| k.pull_step(p, e), answers).1.pop().unwrap()
    };
    assert_eq!(run(vec![Event::Failed("no repo".to_string())]), Request::Finish(Err(plain("no repo"))));
    assert_eq!(
        run(vec![Event::Done, Event::Failed("x".to_string())]),
        Request::Finish(Err(ctx("Failed to find remote 'origin'", "x")))
    );
    assert_eq!(
        run(vec![Event::Done, Event::Done, Event::Failed("a".to_string()), Event::Failed("b".to_string())]),
        Request::Finish(Err(ctx("Fetch failed", "b")))
    );
    assert_eq!(
        run(vec![Event::Done, Event::Done, Event::Done, Event::Failed("no FETCH_HEAD".to_string())]),
        Request::Finish(Err(plain("no FETCH_HEAD")))
    );
}

#[test]
fn pull_fast_forwards_master_where_it_exists() {
    let k = klipp();
    let (_, requests) = drive(
        PullPhase::Begin,
        |p| p.awaiting(),
        |p, e| k.pull_step(p, e),
        vec![
            Event::Done,
            Event::Done,
            Event::Done,
            Event::Analysis(MergeOutcome::FastForward, "c".to_string()),
            Event::BranchExists(true),
            Event::Failed("checkout failed".to_string()),
        ],
    );
    assert_eq!(
        requests[5],
        Request::FastForward {
            reference: "refs/heads/master".to_string(),
            message: "Fast-Forward: Setting to c".to_string(),
        }
    );
    assert_eq!(requests[6], Request::Finish(Err(plain("checkout failed"))));
}

#[test]
fn cargo_compile_runs_release_build() {
    let k = klipp();
    let (logs, requests) = drive(
        CompilePhase::Begin,
        |p| p.awaiting(),
        |p, e| k.compile_step(p, e),
        vec![Event::Done, Event::Exited(true, "exit status: 0".to_string())],
    );
    assert_eq!(logs[0], "Compiling r_klipp using manifest: /home/pi/r_klipp/Cargo.toml");
    assert_eq!(logs[1], "r_klipp compilation finished successfully!");
    assert_eq!(
        requests[0],
        Request::Run {
            program: "cargo".to_string(),
            args: vec![
                "build".to_string(),
                "--manifest-path".to_string(),
                "/home/pi/r_klipp/Cargo.toml".to_string(),
                "--release".to_string(),
            ],
        }
    );
    assert_eq!(requests[1], Request::AwaitRun);
    assert_eq!(requests[2], Request::Finish(Ok(())));
}

#[test]
fn cargo_compile_failures() {
    let k = RKlipperScreenInstaller { repo_url: "u".to_string(), local_path: "/s".to_string() };
    let (logs, requests) = drive(
        CompilePhase::Begin,
        |p| p.awaiting(),
        |p, e| k.compile_step(p, e),
        vec![Event::Done, Event::Exited(false, "exit status: 101".to_string())],
    );
    assert_eq!(logs[1], "rKlipperScreen compilation failed with exit status: exit status: 101");
    assert_eq!(requests[2], Request::Finish(Err(plain("Cargo build failed"))));
    let (_, requests) = drive(
        CompilePhase::Begin,
        |p| p.awaiting(),
        |p, e| k.compile_step(p, e),
        vec![Event::Failed("no cargo".to_string())],
    );
    assert_eq!(
        requests[1],
        Request::Finish(Err(ctx("Failed to start cargo compilation", "no cargo")))
    );
}

#[test]
fn frontends_need_no_compile_or_service() {
    let f = FluiddInstaller { repo_url: "u".to_string(), local_path: "p".to_string() };
    let (logs, _) = drive(CompilePhase::Begin, |p| p.awaiting(), |p, e| f.compile_step(p, e), vec![]);
    assert_eq!(logs, vec!["Fluidd is a precompiled web frontend. No compilation required."]);
    let (logs, _) =
        drive(ServicePhase::Begin, |p| p.awaiting(), |p, e| f.install_service_step(p, e), vec![]);
    assert_eq!(logs, vec!["Fluidd does not have a background daemon service. It runs via Nginx."]);
    let m = MainsailInstaller { repo_url: "u".to_string(), local_path: "p".to_string() };
    let (logs, _) = drive(CompilePhase::Begin, |p| p.awaiting(), |p, e| m.compile_step(p, e), vec![]);
    assert_eq!(logs, vec!["Mainsail is a precompiled web frontend. No compilation required."]);
    let (logs, _) =
        drive(ServicePhase::Begin, |p| p.awaiting(), |p, e| m.install_service_step(p, e), vec![]);
    assert_eq!(logs, vec!["Mainsail does not have a background daemon service. It runs via Nginx."]);
}

#[test]
fn service_written_to_systemd() {
    let k = klipp();
    let (logs, requests) = drive(
        ServicePhase::Begin,
        |p| p.awaiting(),
        |p, e| k.install_service_step(p, e),
        vec![Event::Done],
    );
    assert_eq!(logs[0], "Writing systemd service to /etc/systemd/system/r_klipp.service...");
    assert_eq!(logs[1], "Successfully wrote systemd service file.");
    assert_eq!(
        requests[0],
        Request::WriteFile {
            path: "/etc/systemd/system/r_klipp.service".to_string(),
            contents: R_KLIPP_UNIT.to_string(),
        }
    );
    assert!(R_KLIPP_UNIT.starts_with("[Unit]\nDescription=r_klipp Service\n"));
    assert!(R_KLIPP_UNIT.ends_with("WantedBy=multi-user.target\n"));
}

#[test]
fn service_falls_back_to_local_directory() {
    let m = RustedMoonrakerInstaller { repo_url: "u".to_string(), local_path: "/m".to_string() };
    let (logs, requests) = drive(
        ServicePhase::Begin,
        |p| p.awaiting(),
        |p, e| m.install_service_step(p, e),
        vec![Event::Failed("Permission denied (os error 13)".to_string()), Event::Done],
    );
    assert_eq!(
        logs[1],
        "Failed writing systemd service: Permission denied (os error 13). Attempting fallback writing locally."
    );
    assert_eq!(logs[2], "Wrote service file locally to /m/rusted_moonraker.service.");
    match &requests[1] {
        Request::WriteFile { path, contents } => {
            assert_eq!(path, "/m/rusted_moonraker.service");
            assert!(contents.contains("ExecStart=/home/jrad/RustroverProjects/r_klipp-workspace/rusted_moonraker/target/release/rmr-app"));
        }
        other => panic!("unexpected {:?}", other),
    }
    let (_, requests) = drive(
        ServicePhase::Begin,
        |p| p.awaiting(),
        |p, e| m.install_service_step(p, e),
        vec![Event::Failed("a".to_string()), Event::Failed("b".to_string())],
    );
    assert_eq!(requests[2], Request::Finish(Err(plain("b"))));
}
