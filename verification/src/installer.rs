//! The printer-server components that the helper installs and updates, and the tasks
//! that do it: cloning, pulling, compiling and installing a service.
use vstd::prelude::*;
use vstd::string::*;
use crate::tasks::{
    act, context_error, finish, finish_with, logged, plain, plain_error, quiet, with_context,
    Action, ActionView, Awaiting, Event, EventView,
    MergeOutcome, Request, RequestView,
};
use crate::text::string_views;

verus! {

// ---------------------------------------------------------------------------
// Cloning

/// Where a clone task stands.
#[derive(PartialEq, Eq, Structural, Clone, Copy, Debug)]
pub enum ClonePhase {
    /// Not begun.
    Begin,
    /// Waiting to learn whether the target path exists.
    Checking,
    /// Waiting for the clone.
    Cloning,
    /// Over.
    Over,
}

impl ClonePhase {
    /// The kind of event that the task waits for here.
    pub open spec fn awaits(self) -> Awaiting {
        match self {
            ClonePhase::Begin => Awaiting::Start,
            ClonePhase::Checking => Awaiting::Existence,
            ClonePhase::Cloning => Awaiting::Outcome,
            ClonePhase::Over => Awaiting::Nothing,
        }
    }

    /// The kind of event that the task waits for here.
    pub fn awaiting(&self) -> (r: Awaiting)
        ensures
            r == self.awaits(),
    {
        match self {
            ClonePhase::Begin => Awaiting::Start,
            ClonePhase::Checking => Awaiting::Existence,
            ClonePhase::Cloning => Awaiting::Outcome,
            ClonePhase::Over => Awaiting::Nothing,
        }
    }
}

/// The clone task of the component `name`, from `url` into `path`: log, then skip the
/// clone where the path exists already; otherwise clone, and log success.
pub open spec fn clone_transition(
    name: Seq<char>,
    url: Seq<char>,
    path: Seq<char>,
    phase: ClonePhase,
    event: EventView,
) -> (ClonePhase, ActionView) {
    match phase {
        ClonePhase::Begin => (
            ClonePhase::Checking,
            act(
                seq!["Cloning "@ + url + " into "@ + path + "..."@],
                RequestView::CheckPath(path),
            ),
        ),
        ClonePhase::Checking => if event == EventView::Exists(true) {
            (
                ClonePhase::Over,
                act(
                    seq!["Path "@ + path + " already exists. Skipping clone."@],
                    RequestView::Finish(Ok(())),
                ),
            )
        } else {
            (ClonePhase::Cloning, act(seq![], RequestView::Clone(url, path)))
        },
        ClonePhase::Cloning => match event {
            EventView::Failed(e) => (ClonePhase::Over, finish(Err(plain_error(e)))),
            _ => (
                ClonePhase::Over,
                act(seq!["Successfully cloned "@ + name + "!"@], RequestView::Finish(Ok(()))),
            ),
        },
        ClonePhase::Over => (ClonePhase::Over, finish(Ok(()))),
    }
}

/// One step of the clone task.
pub fn clone_step_for(name: &str, url: &str, path: &str, phase: ClonePhase, event: Event) -> (r: (
    ClonePhase,
    Action,
))
    requires
        crate::tasks::fits(phase.awaits(), event@),
    ensures
        (r.0, r.1@) == clone_transition(name@, url@, path@, phase, event@),
{
    match phase {
        ClonePhase::Begin => {
            let line = String::from_str("Cloning ").concat(url).concat(" into ").concat(path).concat(
                "...",
            );
            (ClonePhase::Checking, logged(line, Request::CheckPath(path.to_string())))
        },
        ClonePhase::Checking => {
            if matches!(event, Event::Exists(true)) {
                let line = String::from_str("Path ").concat(path).concat(
                    " already exists. Skipping clone.",
                );
                (ClonePhase::Over, logged(line, Request::Finish(Ok(()))))
            } else {
                (
                    ClonePhase::Cloning,
                    quiet(Request::Clone { url: url.to_string(), path: path.to_string() }),
                )
            }
        },
        ClonePhase::Cloning => match event {
            Event::Failed(e) => (ClonePhase::Over, finish_with(Err(plain(e)))),
            _ => {
                let line = String::from_str("Successfully cloned ").concat(name).concat("!");
                (ClonePhase::Over, logged(line, Request::Finish(Ok(()))))
            },
        },
        ClonePhase::Over => (ClonePhase::Over, finish_with(Ok(()))),
    }
}

// ---------------------------------------------------------------------------
// Pulling

/// The contents of a pull phase.
pub enum PullPhaseView {
    Begin,
    Opening,
    FindingRemote,
    FetchingMaster,
    FetchingMain,
    Analyzing,
    CheckingBranch(Seq<char>),
    FastForwarding,
    Resetting,
    Over,
}

/// Where a pull task stands.
#[derive(Debug, Clone, PartialEq, Eq)]
pub enum PullPhase {
    /// Not begun.
    Begin,
    /// Waiting for the repository to open.
    Opening,
    /// Waiting for the remote `origin`.
    FindingRemote,
    /// Waiting for the fetch of `master`.
    FetchingMaster,
    /// Waiting for the fetch of `main`, after that of `master` failed.
    FetchingMain,
    /// Waiting for the analysis of the fetched commit.
    Analyzing,
    /// Waiting to learn whether `master` exists, to fast-forward to this commit.
    CheckingBranch(String),
    /// Waiting for the fast-forward.
    FastForwarding,
    /// Waiting for the hard reset.
    Resetting,
    /// Over.
    Over,
}

impl View for PullPhase {
    type V = PullPhaseView;

    open spec fn view(&self) -> PullPhaseView {
        match self {
            PullPhase::Begin => PullPhaseView::Begin,
            PullPhase::Opening => PullPhaseView::Opening,
            PullPhase::FindingRemote => PullPhaseView::FindingRemote,
            PullPhase::FetchingMaster => PullPhaseView::FetchingMaster,
            PullPhase::FetchingMain => PullPhaseView::FetchingMain,
            PullPhase::Analyzing => PullPhaseView::Analyzing,
            PullPhase::CheckingBranch(c) => PullPhaseView::CheckingBranch(c@),
            PullPhase::FastForwarding => PullPhaseView::FastForwarding,
            PullPhase::Resetting => PullPhaseView::Resetting,
            PullPhase::Over => PullPhaseView::Over,
        }
    }
}

/// The kind of event that a pull task waits for in a phase.
pub open spec fn pull_awaits(phase: PullPhaseView) -> Awaiting {
    match phase {
        PullPhaseView::Begin => Awaiting::Start,
        PullPhaseView::Analyzing => Awaiting::Analysis,
        PullPhaseView::CheckingBranch(_) => Awaiting::Reference,
        PullPhaseView::Over => Awaiting::Nothing,
        _ => Awaiting::Outcome,
    }
}

impl PullPhase {
    /// The kind of event that the task waits for here.
    pub fn awaiting(&self) -> (r: Awaiting)
        ensures
            r == pull_awaits(self@),
    {
        match self {
            PullPhase::Begin => Awaiting::Start,
            PullPhase::Analyzing => Awaiting::Analysis,
            PullPhase::CheckingBranch(_) => Awaiting::Reference,
            PullPhase::Over => Awaiting::Nothing,
            _ => Awaiting::Outcome,
        }
    }
}

/// The error of a failed step, or `Done`'s absence of one.
pub open spec fn failure_of(event: EventView) -> Seq<char> {
    match event {
        EventView::Failed(e) => e,
        _ => Seq::<char>::empty(),
    }
}

/// The pull task of the repository at `path`: open it, find `origin`, fetch `master` or
/// else `main`, then fast-forward (to `master` where it exists, else to `main`), do
/// nothing where the branch is up to date, or reset hard to the fetched commit.
pub open spec fn pull_transition(path: Seq<char>, phase: PullPhaseView, event: EventView) -> (
    PullPhaseView,
    ActionView,
) {
    match phase {
        PullPhaseView::Begin => (
            PullPhaseView::Opening,
            act(
                seq!["Updating repository at "@ + path + "..."@],
                RequestView::OpenRepo(path),
            ),
        ),
        PullPhaseView::Opening => if event is Done {
            (PullPhaseView::FindingRemote, act(seq![], RequestView::FindRemote("origin"@)))
        } else {
            (PullPhaseView::Over, finish(Err(plain_error(failure_of(event)))))
        },
        PullPhaseView::FindingRemote => if event is Done {
            (
                PullPhaseView::FetchingMaster,
                act(
                    seq!["Fetching latest updates from remote..."@],
                    RequestView::Fetch("master"@),
                ),
            )
        } else {
            (PullPhaseView::Over, finish(Err(context_error("Failed to find remote 'origin'"@, failure_of(event)))))
        },
        PullPhaseView::FetchingMaster => if event is Done {
            (PullPhaseView::Analyzing, act(seq![], RequestView::AnalyzeFetch))
        } else {
            (PullPhaseView::FetchingMain, act(seq![], RequestView::Fetch("main"@)))
        },
        PullPhaseView::FetchingMain => if event is Done {
            (PullPhaseView::Analyzing, act(seq![], RequestView::AnalyzeFetch))
        } else {
            (PullPhaseView::Over, finish(Err(context_error("Fetch failed"@, failure_of(event)))))
        },
        PullPhaseView::Analyzing => match event {
            EventView::Analysis(MergeOutcome::FastForward, commit) => (
                PullPhaseView::CheckingBranch(commit),
                act(
                    seq!["Fast-forward merge possible. Merging..."@],
                    RequestView::CheckReference("refs/heads/master"@),
                ),
            ),
            EventView::Analysis(MergeOutcome::UpToDate, _) => (
                PullPhaseView::Over,
                act(seq!["Repository is already up-to-date."@], RequestView::Finish(Ok(()))),
            ),
            EventView::Analysis(MergeOutcome::Diverged, _) => (
                PullPhaseView::Resetting,
                act(
                    seq!["Non-fast-forward state. Performing hard reset to origin tip..."@],
                    RequestView::HardReset,
                ),
            ),
            _ => (PullPhaseView::Over, finish(Err(plain_error(failure_of(event))))),
        },
        PullPhaseView::CheckingBranch(commit) => (
            PullPhaseView::FastForwarding,
            act(
                seq![],
                RequestView::FastForward(
                    if event == EventView::BranchExists(true) {
                        "refs/heads/master"@
                    } else {
                        "refs/heads/main"@
                    },
                    "Fast-Forward: Setting to "@ + commit,
                ),
            ),
        ),
        PullPhaseView::FastForwarding => if event is Done {
            (
                PullPhaseView::Over,
                act(seq!["Update completed via fast-forward."@], RequestView::Finish(Ok(()))),
            )
        } else {
            (PullPhaseView::Over, finish(Err(plain_error(failure_of(event)))))
        },
        PullPhaseView::Resetting => if event is Done {
            (
                PullPhaseView::Over,
                act(seq!["Hard reset completed successfully."@], RequestView::Finish(Ok(()))),
            )
        } else {
            (PullPhaseView::Over, finish(Err(plain_error(failure_of(event)))))
        },
        PullPhaseView::Over => (PullPhaseView::Over, finish(Ok(()))),
    }
}

/// The error that a `Failed` event carries.
fn failure_text(event: Event) -> (e: String)
    requires
        event is Failed,
    ensures
        e@ == failure_of(event@),
{
    match event {
        Event::Failed(e) => e,
        _ => String::new(),
    }
}

/// One step of the pull task.
pub fn pull_step_for(path: &str, phase: PullPhase, event: Event) -> (r: (PullPhase, Action))
    requires
        crate::tasks::fits(pull_awaits(phase@), event@),
    ensures
        (r.0@, r.1@) == pull_transition(path@, phase@, event@),
{
    match phase {
        PullPhase::Begin => {
            let line = String::from_str("Updating repository at ").concat(path).concat("...");
            (PullPhase::Opening, logged(line, Request::OpenRepo(path.to_string())))
        },
        PullPhase::Opening => {
            if matches!(event, Event::Done) {
                (PullPhase::FindingRemote, quiet(Request::FindRemote("origin".to_string())))
            } else {
                (PullPhase::Over, finish_with(Err(plain(failure_text(event)))))
            }
        },
        PullPhase::FindingRemote => {
            if matches!(event, Event::Done) {
                (
                    PullPhase::FetchingMaster,
                    logged(
                        "Fetching latest updates from remote...".to_string(),
                        Request::Fetch("master".to_string()),
                    ),
                )
            } else {
                (
                    PullPhase::Over,
                    finish_with(Err(with_context("Failed to find remote 'origin'", failure_text(event)))),
                )
            }
        },
        PullPhase::FetchingMaster => {
            if matches!(event, Event::Done) {
                (PullPhase::Analyzing, quiet(Request::AnalyzeFetch))
            } else {
                (PullPhase::FetchingMain, quiet(Request::Fetch("main".to_string())))
            }
        },
        PullPhase::FetchingMain => {
            if matches!(event, Event::Done) {
                (PullPhase::Analyzing, quiet(Request::AnalyzeFetch))
            } else {
                (PullPhase::Over, finish_with(Err(with_context("Fetch failed", failure_text(event)))))
            }
        },
        PullPhase::Analyzing => match event {
            Event::Analysis(MergeOutcome::FastForward, commit) => (
                PullPhase::CheckingBranch(commit),
                logged(
                    "Fast-forward merge possible. Merging...".to_string(),
                    Request::CheckReference("refs/heads/master".to_string()),
                ),
            ),
            Event::Analysis(MergeOutcome::UpToDate, _) => (
                PullPhase::Over,
                logged("Repository is already up-to-date.".to_string(), Request::Finish(Ok(()))),
            ),
            Event::Analysis(MergeOutcome::Diverged, _) => (
                PullPhase::Resetting,
                logged(
                    "Non-fast-forward state. Performing hard reset to origin tip...".to_string(),
                    Request::HardReset,
                ),
            ),
            _ => (PullPhase::Over, finish_with(Err(plain(failure_text(event))))),
        },
        PullPhase::CheckingBranch(commit) => {
            let reference = if matches!(event, Event::BranchExists(true)) {
                "refs/heads/master".to_string()
            } else {
                "refs/heads/main".to_string()
            };
            let message = String::from_str("Fast-Forward: Setting to ").concat(commit.as_str());
            (PullPhase::FastForwarding, quiet(Request::FastForward { reference, message }))
        },
        PullPhase::FastForwarding => {
            if matches!(event, Event::Done) {
                (
                    PullPhase::Over,
                    logged(
                        "Update completed via fast-forward.".to_string(),
                        Request::Finish(Ok(())),
                    ),
                )
            } else {
                (PullPhase::Over, finish_with(Err(plain(failure_text(event)))))
            }
        },
        PullPhase::Resetting => {
            if matches!(event, Event::Done) {
                (
                    PullPhase::Over,
                    logged(
                        "Hard reset completed successfully.".to_string(),
                        Request::Finish(Ok(())),
                    ),
                )
            } else {
                (PullPhase::Over, finish_with(Err(plain(failure_text(event)))))
            }
        },
        PullPhase::Over => (PullPhase::Over, finish_with(Ok(()))),
    }
}

// ---------------------------------------------------------------------------
// Compiling

/// Where a compile task stands.
#[derive(PartialEq, Eq, Structural, Clone, Copy, Debug)]
pub enum CompilePhase {
    /// Not begun.
    Begin,
    /// Waiting for the build program to start.
    Starting,
    /// Waiting for the build program to end.
    Running,
    /// Over.
    Over,
}

impl CompilePhase {
    /// The kind of event that the task waits for here.
    pub open spec fn awaits(self) -> Awaiting {
        match self {
            CompilePhase::Begin => Awaiting::Start,
            CompilePhase::Starting => Awaiting::Outcome,
            CompilePhase::Running => Awaiting::Exit,
            CompilePhase::Over => Awaiting::Nothing,
        }
    }

    /// The kind of event that the task waits for here.
    pub fn awaiting(&self) -> (r: Awaiting)
        ensures
            r == self.awaits(),
    {
        match self {
            CompilePhase::Begin => Awaiting::Start,
            CompilePhase::Starting => Awaiting::Outcome,
            CompilePhase::Running => Awaiting::Exit,
            CompilePhase::Over => Awaiting::Nothing,
        }
    }
}

/// The Cargo manifest of the workspace at `local_path`.
pub open spec fn manifest_path(local_path: Seq<char>) -> Seq<char> {
    local_path + "/Cargo.toml"@
}

/// The arguments of the release build of the manifest.
pub open spec fn cargo_args(manifest: Seq<char>) -> Seq<Seq<char>> {
    seq!["build"@, "--manifest-path"@, manifest, "--release"@]
}

/// The compile task of a Rust component: log, start `cargo build --manifest-path
/// <local>/Cargo.toml --release`, stream its errors to the log and wait for it, then
/// log and report how it ended.
pub open spec fn cargo_compile_transition(
    name: Seq<char>,
    local_path: Seq<char>,
    phase: CompilePhase,
    event: EventView,
) -> (CompilePhase, ActionView) {
    match phase {
        CompilePhase::Begin => (
            CompilePhase::Starting,
            act(
                seq!["Compiling "@ + name + " using manifest: "@ + manifest_path(local_path)],
                RequestView::Run("cargo"@, cargo_args(manifest_path(local_path))),
            ),
        ),
        CompilePhase::Starting => if event is Done {
            (CompilePhase::Running, act(seq![], RequestView::AwaitRun))
        } else {
            (CompilePhase::Over, finish(Err(context_error("Failed to start cargo compilation"@, failure_of(event)))))
        },
        CompilePhase::Running => match event {
            EventView::Exited(true, _) => (
                CompilePhase::Over,
                act(
                    seq![name + " compilation finished successfully!"@],
                    RequestView::Finish(Ok(())),
                ),
            ),
            EventView::Exited(false, status) => (
                CompilePhase::Over,
                act(
                    seq![name + " compilation failed with exit status: "@ + status],
                    RequestView::Finish(Err(plain_error("Cargo build failed"@))),
                ),
            ),
            _ => (CompilePhase::Over, finish(Err(plain_error(failure_of(event))))),
        },
        CompilePhase::Over => (CompilePhase::Over, finish(Ok(()))),
    }
}

/// A compile task that only logs `note` and succeeds.
pub open spec fn note_compile_transition(note: Seq<char>, phase: CompilePhase) -> (
    CompilePhase,
    ActionView,
) {
    match phase {
        CompilePhase::Begin => (
            CompilePhase::Over,
            act(seq![note], RequestView::Finish(Ok(()))),
        ),
        _ => (CompilePhase::Over, finish(Ok(()))),
    }
}

/// One step of the compile task of a Rust component.
pub fn cargo_compile_step(name: &str, local_path: &str, phase: CompilePhase, event: Event) -> (r: (
    CompilePhase,
    Action,
))
    requires
        crate::tasks::fits(phase.awaits(), event@),
    ensures
        (r.0, r.1@) == cargo_compile_transition(name@, local_path@, phase, event@),
{
    match phase {
        CompilePhase::Begin => {
            let manifest = String::from_str(local_path).concat("/Cargo.toml");
            let line = String::from_str("Compiling ").concat(name).concat(
                " using manifest: ",
            ).concat(manifest.as_str());
            let mut args: Vec<String> = Vec::new();
            args.push("build".to_string());
            args.push("--manifest-path".to_string());
            args.push(manifest);
            args.push("--release".to_string());
            let request = Request::Run { program: "cargo".to_string(), args };
            assert(request@ == RequestView::Run("cargo"@, cargo_args(manifest_path(local_path@))))
                by {
                assert(string_views(args@) =~= cargo_args(manifest_path(local_path@)));
            }
            (CompilePhase::Starting, logged(line, request))
        },
        CompilePhase::Starting => {
            if matches!(event, Event::Done) {
                (CompilePhase::Running, quiet(Request::AwaitRun))
            } else {
                (
                    CompilePhase::Over,
                    finish_with(Err(with_context("Failed to start cargo compilation", failure_text(event)))),
                )
            }
        },
        CompilePhase::Running => match event {
            Event::Exited(true, _) => {
                let line = String::from_str(name).concat(" compilation finished successfully!");
                (CompilePhase::Over, logged(line, Request::Finish(Ok(()))))
            },
            Event::Exited(false, status) => {
                let line = String::from_str(name).concat(
                    " compilation failed with exit status: ",
                ).concat(status.as_str());
                (
                    CompilePhase::Over,
                    logged(line, Request::Finish(Err(plain("Cargo build failed".to_string())))),
                )
            },
            _ => (CompilePhase::Over, finish_with(Err(plain(failure_text(event))))),
        },
        CompilePhase::Over => (CompilePhase::Over, finish_with(Ok(()))),
    }
}

/// One step of a compile task that only logs `note`.
pub fn note_compile_step(note: &str, phase: CompilePhase) -> (r: (CompilePhase, Action))
    ensures
        (r.0, r.1@) == note_compile_transition(note@, phase),
{
    match phase {
        CompilePhase::Begin => (
            CompilePhase::Over,
            logged(note.to_string(), Request::Finish(Ok(()))),
        ),
        _ => (CompilePhase::Over, finish_with(Ok(()))),
    }
}

// ---------------------------------------------------------------------------
// Installing a service

/// Where a service installation task stands.
#[derive(PartialEq, Eq, Structural, Clone, Copy, Debug)]
pub enum ServicePhase {
    /// Not begun.
    Begin,
    /// Waiting for the unit file to be written to the systemd directory.
    Writing,
    /// Waiting for the unit file to be written into the component's own directory.
    WritingLocally,
    /// Over.
    Over,
}

impl ServicePhase {
    /// The kind of event that the task waits for here.
    pub open spec fn awaits(self) -> Awaiting {
        match self {
            ServicePhase::Begin => Awaiting::Start,
            ServicePhase::Writing => Awaiting::Outcome,
            ServicePhase::WritingLocally => Awaiting::Outcome,
            ServicePhase::Over => Awaiting::Nothing,
        }
    }

    /// The kind of event that the task waits for here.
    pub fn awaiting(&self) -> (r: Awaiting)
        ensures
            r == self.awaits(),
    {
        match self {
            ServicePhase::Begin => Awaiting::Start,
            ServicePhase::Writing => Awaiting::Outcome,
            ServicePhase::WritingLocally => Awaiting::Outcome,
            ServicePhase::Over => Awaiting::Nothing,
        }
    }
}

/// Where systemd finds the unit `name`.
pub open spec fn system_unit_path(name: Seq<char>) -> Seq<char> {
    "/etc/systemd/system/"@ + name + ".service"@
}

/// Where the unit `name` is written when the systemd directory cannot be written.
pub open spec fn local_unit_path(local_path: Seq<char>, name: Seq<char>) -> Seq<char> {
    local_path + "/"@ + name + ".service"@
}

/// The service installation task of a daemon: write the unit file to the systemd
/// directory; where that fails, log why and write it into the component's directory.
pub open spec fn unit_install_transition(
    name: Seq<char>,
    contents: Seq<char>,
    local_path: Seq<char>,
    phase: ServicePhase,
    event: EventView,
) -> (ServicePhase, ActionView) {
    let system = system_unit_path(name);
    let local = local_unit_path(local_path, name);
    match phase {
        ServicePhase::Begin => (
            ServicePhase::Writing,
            act(
                seq!["Writing systemd service to "@ + system + "..."@],
                RequestView::WriteFile(system, contents),
            ),
        ),
        ServicePhase::Writing => if event is Done {
            (
                ServicePhase::Over,
                act(seq!["Successfully wrote systemd service file."@], RequestView::Finish(Ok(()))),
            )
        } else {
            (
                ServicePhase::WritingLocally,
                act(
                    seq![
                        "Failed writing systemd service: "@ + failure_of(event)
                            + ". Attempting fallback writing locally."@,
                    ],
                    RequestView::WriteFile(local, contents),
                ),
            )
        },
        ServicePhase::WritingLocally => if event is Done {
            (
                ServicePhase::Over,
                act(
                    seq!["Wrote service file locally to "@ + local + "."@],
                    RequestView::Finish(Ok(())),
                ),
            )
        } else {
            (ServicePhase::Over, finish(Err(plain_error(failure_of(event)))))
        },
        ServicePhase::Over => (ServicePhase::Over, finish(Ok(()))),
    }
}

/// A service installation task that only logs `note` and succeeds.
pub open spec fn note_service_transition(note: Seq<char>, phase: ServicePhase) -> (
    ServicePhase,
    ActionView,
) {
    match phase {
        ServicePhase::Begin => (
            ServicePhase::Over,
            act(seq![note], RequestView::Finish(Ok(()))),
        ),
        _ => (ServicePhase::Over, finish(Ok(()))),
    }
}

/// One step of the service installation task of a daemon.
pub fn unit_install_step(
    name: &str,
    contents: &str,
    local_path: &str,
    phase: ServicePhase,
    event: Event,
) -> (r: (ServicePhase, Action))
    requires
        crate::tasks::fits(phase.awaits(), event@),
    ensures
        (r.0, r.1@) == unit_install_transition(name@, contents@, local_path@, phase, event@),
{
    match phase {
        ServicePhase::Begin => {
            let system = String::from_str("/etc/systemd/system/").concat(name).concat(".service");
            let line = String::from_str("Writing systemd service to ").concat(
                system.as_str(),
            ).concat("...");
            (
                ServicePhase::Writing,
                logged(
                    line,
                    Request::WriteFile { path: system, contents: contents.to_string() },
                ),
            )
        },
        ServicePhase::Writing => {
            if matches!(event, Event::Done) {
                (
                    ServicePhase::Over,
                    logged(
                        "Successfully wrote systemd service file.".to_string(),
                        Request::Finish(Ok(())),
                    ),
                )
            } else {
                let local = String::from_str(local_path).concat("/").concat(name).concat(
                    ".service",
                );
                let error = failure_text(event);
                let line = String::from_str("Failed writing systemd service: ").concat(
                    error.as_str(),
                ).concat(". Attempting fallback writing locally.");
                (
                    ServicePhase::WritingLocally,
                    logged(line, Request::WriteFile { path: local, contents: contents.to_string() }),
                )
            }
        },
        ServicePhase::WritingLocally => {
            if matches!(event, Event::Done) {
                let local = String::from_str(local_path).concat("/").concat(name).concat(
                    ".service",
                );
                let line = String::from_str("Wrote service file locally to ").concat(
                    local.as_str(),
                ).concat(".");
                (ServicePhase::Over, logged(line, Request::Finish(Ok(()))))
            } else {
                (ServicePhase::Over, finish_with(Err(plain(failure_text(event)))))
            }
        },
        ServicePhase::Over => (ServicePhase::Over, finish_with(Ok(()))),
    }
}

/// One step of a service installation task that only logs `note`.
pub fn note_service_step(note: &str, phase: ServicePhase) -> (r: (ServicePhase, Action))
    ensures
        (r.0, r.1@) == note_service_transition(note@, phase),
{
    match phase {
        ServicePhase::Begin => (
            ServicePhase::Over,
            logged(note.to_string(), Request::Finish(Ok(()))),
        ),
        _ => (ServicePhase::Over, finish_with(Ok(()))),
    }
}

// ---------------------------------------------------------------------------
// The components

/// A printer-server component that the helper installs from a git repository.
pub trait ComponentInstaller {
    /// The component's name.
    spec fn component_name(&self) -> Seq<char>;

    /// The repository that the component comes from.
    spec fn repo_url(&self) -> Seq<char>;

    /// The directory that the component is cloned into.
    spec fn local_path(&self) -> Seq<char>;

    /// The compile task of the component.
    spec fn compile_transition(&self, phase: CompilePhase, event: EventView) -> (
        CompilePhase,
        ActionView,
    );

    /// The service installation task of the component.
    spec fn install_service_transition(&self, phase: ServicePhase, event: EventView) -> (
        ServicePhase,
        ActionView,
    );

    /// The systemd unit that runs the component, where it is a daemon.
    spec fn daemon_unit(&self) -> Option<Seq<char>>;

    /// The systemd unit that runs the component, where it is a daemon.
    fn service_unit(&self) -> (r: Option<String>)
        ensures
            match r {
                Some(u) => self.daemon_unit() == Some(u@),
                None => self.daemon_unit() is None,
            },
    ;

    /// The component's name.
    fn name(&self) -> (r: &str)
        ensures
            r@ == self.component_name(),
    ;

    /// The repository that the component comes from.
    fn get_repo_url(&self) -> (r: &str)
        ensures
            r@ == self.repo_url(),
    ;

    /// The directory that the component is cloned into.
    fn get_local_path(&self) -> (r: &str)
        ensures
            r@ == self.local_path(),
    ;

    /// One step of cloning the component's repository.
    fn clone_step(&self, phase: ClonePhase, event: Event) -> (r: (ClonePhase, Action))
        requires
            crate::tasks::fits(phase.awaits(), event@),
        ensures
            (r.0, r.1@) == clone_transition(
                self.component_name(),
                self.repo_url(),
                self.local_path(),
                phase,
                event@,
            ),
    {
        clone_step_for(self.name(), self.get_repo_url(), self.get_local_path(), phase, event)
    }

    /// One step of pulling the latest changes into the component's repository.
    fn pull_step(&self, phase: PullPhase, event: Event) -> (r: (PullPhase, Action))
        requires
            crate::tasks::fits(pull_awaits(phase@), event@),
        ensures
            (r.0@, r.1@) == pull_transition(self.local_path(), phase@, event@),
    {
        pull_step_for(self.get_local_path(), phase, event)
    }

    /// One step of compiling the component.
    fn compile_step(&self, phase: CompilePhase, event: Event) -> (r: (CompilePhase, Action))
        requires
            crate::tasks::fits(phase.awaits(), event@),
        ensures
            (r.0, r.1@) == self.compile_transition(phase, event@),
    ;

    /// One step of installing the component's service.
    fn install_service_step(&self, phase: ServicePhase, event: Event) -> (r: (
        ServicePhase,
        Action,
    ))
        requires
            crate::tasks::fits(phase.awaits(), event@),
        ensures
            (r.0, r.1@) == self.install_service_transition(phase, event@),
    ;
}

/// The systemd unit of the `r_klipp` host daemon.
pub const R_KLIPP_UNIT: &'static str = "[Unit]\nDescription=r_klipp Service\nAfter=network.target\n\n[Service]\nType=simple\nUser=jrad\nExecStart=/home/jrad/RustroverProjects/r_klipp-workspace/r_klipp/target/release/klipper-host\nRestart=always\n\n[Install]\nWantedBy=multi-user.target\n";

/// The systemd unit of the Moonraker API server.
pub const RUSTED_MOONRAKER_UNIT: &'static str = "[Unit]\nDescription=Rusted Moonraker Service\nAfter=network.target\n\n[Service]\nType=simple\nUser=jrad\nExecStart=/home/jrad/RustroverProjects/r_klipp-workspace/rusted_moonraker/target/release/rmr-app\nRestart=always\n\n[Install]\nWantedBy=multi-user.target\n";

/// The systemd unit of the touch-screen interface.
pub const R_KLIPPER_SCREEN_UNIT: &'static str = "[Unit]\nDescription=rKlipperScreen Service\nAfter=network.target\n\n[Service]\nType=simple\nUser=jrad\nExecStart=/home/jrad/RustroverProjects/r_klipp-workspace/rKlipperScreen/target/release/rKlipperScreen\nRestart=always\n\n[Install]\nWantedBy=multi-user.target\n";

/// The `r_klipp` printer host.
pub struct RKlippInstaller {
    pub repo_url: String,
    pub local_path: String,
}

impl ComponentInstaller for RKlippInstaller {
    open spec fn daemon_unit(&self) -> Option<Seq<char>> {
        Some("r_klipp"@ + ".service"@)
    }

    fn service_unit(&self) -> (r: Option<String>) {
        Some(String::from_str("r_klipp").concat(".service"))
    }

    open spec fn component_name(&self) -> Seq<char> {
        "r_klipp"@
    }

    open spec fn repo_url(&self) -> Seq<char> {
        self.repo_url@
    }

    open spec fn local_path(&self) -> Seq<char> {
        self.local_path@
    }

    open spec fn compile_transition(&self, phase: CompilePhase, event: EventView) -> (
        CompilePhase,
        ActionView,
    ) {
        cargo_compile_transition("r_klipp"@, self.local_path@, phase, event)
    }

    open spec fn install_service_transition(&self, phase: ServicePhase, event: EventView) -> (
        ServicePhase,
        ActionView,
    ) {
        unit_install_transition("r_klipp"@, R_KLIPP_UNIT@, self.local_path@, phase, event)
    }

    fn name(&self) -> (r: &str) {
        "r_klipp"
    }

    fn get_repo_url(&self) -> (r: &str) {
        self.repo_url.as_str()
    }

    fn get_local_path(&self) -> (r: &str) {
        self.local_path.as_str()
    }

    fn compile_step(&self, phase: CompilePhase, event: Event) -> (r: (CompilePhase, Action)) {
        cargo_compile_step("r_klipp", self.local_path.as_str(), phase, event)
    }

    fn install_service_step(&self, phase: ServicePhase, event: Event) -> (r: (
        ServicePhase,
        Action,
    )) {
        unit_install_step("r_klipp", R_KLIPP_UNIT, self.local_path.as_str(), phase, event)
    }
}

/// The Moonraker API server.
pub struct RustedMoonrakerInstaller {
    pub repo_url: String,
    pub local_path: String,
}

impl ComponentInstaller for RustedMoonrakerInstaller {
    open spec fn daemon_unit(&self) -> Option<Seq<char>> {
        Some("rusted_moonraker"@ + ".service"@)
    }

    fn service_unit(&self) -> (r: Option<String>) {
        Some(String::from_str("rusted_moonraker").concat(".service"))
    }

    open spec fn component_name(&self) -> Seq<char> {
        "rusted_moonraker"@
    }

    open spec fn repo_url(&self) -> Seq<char> {
        self.repo_url@
    }

    open spec fn local_path(&self) -> Seq<char> {
        self.local_path@
    }

    open spec fn compile_transition(&self, phase: CompilePhase, event: EventView) -> (
        CompilePhase,
        ActionView,
    ) {
        cargo_compile_transition("rusted_moonraker"@, self.local_path@, phase, event)
    }

    open spec fn install_service_transition(&self, phase: ServicePhase, event: EventView) -> (
        ServicePhase,
        ActionView,
    ) {
        unit_install_transition(
            "rusted_moonraker"@,
            RUSTED_MOONRAKER_UNIT@,
            self.local_path@,
            phase,
            event,
        )
    }

    fn name(&self) -> (r: &str) {
        "rusted_moonraker"
    }

    fn get_repo_url(&self) -> (r: &str) {
        self.repo_url.as_str()
    }

    fn get_local_path(&self) -> (r: &str) {
        self.local_path.as_str()
    }

    fn compile_step(&self, phase: CompilePhase, event: Event) -> (r: (CompilePhase, Action)) {
        cargo_compile_step("rusted_moonraker", self.local_path.as_str(), phase, event)
    }

    fn install_service_step(&self, phase: ServicePhase, event: Event) -> (r: (
        ServicePhase,
        Action,
    )) {
        unit_install_step(
            "rusted_moonraker",
            RUSTED_MOONRAKER_UNIT,
            self.local_path.as_str(),
            phase,
            event,
        )
    }
}

/// The Fluidd web interface, served by Nginx.
pub struct FluiddInstaller {
    pub repo_url: String,
    pub local_path: String,
}

impl ComponentInstaller for FluiddInstaller {
    open spec fn daemon_unit(&self) -> Option<Seq<char>> {
        None
    }

    fn service_unit(&self) -> (r: Option<String>) {
        None
    }

    open spec fn component_name(&self) -> Seq<char> {
        "fluidd"@
    }

    open spec fn repo_url(&self) -> Seq<char> {
        self.repo_url@
    }

    open spec fn local_path(&self) -> Seq<char> {
        self.local_path@
    }

    open spec fn compile_transition(&self, phase: CompilePhase, event: EventView) -> (
        CompilePhase,
        ActionView,
    ) {
        note_compile_transition(
            "Fluidd is a precompiled web frontend. No compilation required."@,
            phase,
        )
    }

    open spec fn install_service_transition(&self, phase: ServicePhase, event: EventView) -> (
        ServicePhase,
        ActionView,
    ) {
        note_service_transition(
            "Fluidd does not have a background daemon service. It runs via Nginx."@,
            phase,
        )
    }

    fn name(&self) -> (r: &str) {
        "fluidd"
    }

    fn get_repo_url(&self) -> (r: &str) {
        self.repo_url.as_str()
    }

    fn get_local_path(&self) -> (r: &str) {
        self.local_path.as_str()
    }

    fn compile_step(&self, phase: CompilePhase, event: Event) -> (r: (CompilePhase, Action)) {
        note_compile_step("Fluidd is a precompiled web frontend. No compilation required.", phase)
    }

    fn install_service_step(&self, phase: ServicePhase, event: Event) -> (r: (
        ServicePhase,
        Action,
    )) {
        note_service_step(
            "Fluidd does not have a background daemon service. It runs via Nginx.",
            phase,
        )
    }
}

/// The touch-screen interface.
pub struct RKlipperScreenInstaller {
    pub repo_url: String,
    pub local_path: String,
}

impl ComponentInstaller for RKlipperScreenInstaller {
    open spec fn daemon_unit(&self) -> Option<Seq<char>> {
        Some("rKlipperScreen"@ + ".service"@)
    }

    fn service_unit(&self) -> (r: Option<String>) {
        Some(String::from_str("rKlipperScreen").concat(".service"))
    }

    open spec fn component_name(&self) -> Seq<char> {
        "rKlipperScreen"@
    }

    open spec fn repo_url(&self) -> Seq<char> {
        self.repo_url@
    }

    open spec fn local_path(&self) -> Seq<char> {
        self.local_path@
    }

    open spec fn compile_transition(&self, phase: CompilePhase, event: EventView) -> (
        CompilePhase,
        ActionView,
    ) {
        cargo_compile_transition("rKlipperScreen"@, self.local_path@, phase, event)
    }

    open spec fn install_service_transition(&self, phase: ServicePhase, event: EventView) -> (
        ServicePhase,
        ActionView,
    ) {
        unit_install_transition(
            "rKlipperScreen"@,
            R_KLIPPER_SCREEN_UNIT@,
            self.local_path@,
            phase,
            event,
        )
    }

    fn name(&self) -> (r: &str) {
        "rKlipperScreen"
    }

    fn get_repo_url(&self) -> (r: &str) {
        self.repo_url.as_str()
    }

    fn get_local_path(&self) -> (r: &str) {
        self.local_path.as_str()
    }

    fn compile_step(&self, phase: CompilePhase, event: Event) -> (r: (CompilePhase, Action)) {
        cargo_compile_step("rKlipperScreen", self.local_path.as_str(), phase, event)
    }

    fn install_service_step(&self, phase: ServicePhase, event: Event) -> (r: (
        ServicePhase,
        Action,
    )) {
        unit_install_step(
            "rKlipperScreen",
            R_KLIPPER_SCREEN_UNIT,
            self.local_path.as_str(),
            phase,
            event,
        )
    }
}

/// The Mainsail web interface, served by Nginx.
pub struct MainsailInstaller {
    pub repo_url: String,
    pub local_path: String,
}

impl ComponentInstaller for MainsailInstaller {
    open spec fn daemon_unit(&self) -> Option<Seq<char>> {
        None
    }

    fn service_unit(&self) -> (r: Option<String>) {
        None
    }

    open spec fn component_name(&self) -> Seq<char> {
        "mainsail"@
    }

    open spec fn repo_url(&self) -> Seq<char> {
        self.repo_url@
    }

    open spec fn local_path(&self) -> Seq<char> {
        self.local_path@
    }

    open spec fn compile_transition(&self, phase: CompilePhase, event: EventView) -> (
        CompilePhase,
        ActionView,
    ) {
        note_compile_transition(
            "Mainsail is a precompiled web frontend. No compilation required."@,
            phase,
        )
    }

    open spec fn install_service_transition(&self, phase: ServicePhase, event: EventView) -> (
        ServicePhase,
        ActionView,
    ) {
        note_service_transition(
            "Mainsail does not have a background daemon service. It runs via Nginx."@,
            phase,
        )
    }

    fn name(&self) -> (r: &str) {
        "mainsail"
    }

    fn get_repo_url(&self) -> (r: &str) {
        self.repo_url.as_str()
    }

    fn get_local_path(&self) -> (r: &str) {
        self.local_path.as_str()
    }

    fn compile_step(&self, phase: CompilePhase, event: Event) -> (r: (CompilePhase, Action)) {
        note_compile_step(
            "Mainsail is a precompiled web frontend. No compilation required.",
            phase,
        )
    }

    fn install_service_step(&self, phase: ServicePhase, event: Event) -> (r: (
        ServicePhase,
        Action,
    )) {
        note_service_step(
            "Mainsail does not have a background daemon service. It runs via Nginx.",
            phase,
        )
    }
}

// ---------------------------------------------------------------------------
// Install and update

/// A task that installing or updating a component runs.
#[derive(PartialEq, Eq, Structural, Clone, Copy, Debug)]
pub enum Stage {
    Clone,
    Pull,
    Compile,
    InstallService,
    RestartService,
}

/// What is done to a component.
#[derive(PartialEq, Eq, Structural, Clone, Copy, Debug)]
pub enum ComponentAction {
    Install,
    Update,
}

/// The tasks, in order, that installing or updating a component runs, each only after
/// the one before it succeeded: installing clones, compiles and installs the service;
/// updating pulls, compiles and, for a daemon, restarts its service.
pub open spec fn stages_of(action: ComponentAction, daemon: bool) -> Seq<Stage> {
    match action {
        ComponentAction::Install => seq![Stage::Clone, Stage::Compile, Stage::InstallService],
        ComponentAction::Update => if daemon {
            seq![Stage::Pull, Stage::Compile, Stage::RestartService]
        } else {
            seq![Stage::Pull, Stage::Compile]
        },
    }
}

/// The tasks, in order, that installing or updating a component runs.
pub fn stages(action: ComponentAction, daemon: bool) -> (r: Vec<Stage>)
    ensures
        r@ == stages_of(action, daemon),
{
    let mut r: Vec<Stage> = Vec::new();
    match action {
        ComponentAction::Install => {
            r.push(Stage::Clone);
            r.push(Stage::Compile);
            r.push(Stage::InstallService);
        },
        ComponentAction::Update => {
            r.push(Stage::Pull);
            r.push(Stage::Compile);
            if daemon {
                r.push(Stage::RestartService);
            }
        },
    }
    assert(r@ =~= stages_of(action, daemon));
    r
}

/// The position of the stage that runs after the stage at `finished`, of `count` stages,
/// ended; `None` where the run is over, after a stage that failed or after the last one.
pub fn next_stage(count: usize, finished: usize, succeeded: bool) -> (r: Option<usize>)
    requires
        finished < count,
    ensures
        r == if succeeded && finished + 1 < count {
            Some((finished + 1) as usize)
        } else {
            None
        },
{
    if succeeded && finished + 1 < count {
        Some(finished + 1)
    } else {
        None
    }
}

// ---------------------------------------------------------------------------
// Progress

/// How many steps a clone task has left at most.
pub open spec fn clone_rank(phase: ClonePhase) -> nat {
    match phase {
        ClonePhase::Begin => 3,
        ClonePhase::Checking => 2,
        ClonePhase::Cloning => 1,
        ClonePhase::Over => 0,
    }
}

/// How many steps a pull task has left at most.
pub open spec fn pull_rank(phase: PullPhaseView) -> nat {
    match phase {
        PullPhaseView::Begin => 8,
        PullPhaseView::Opening => 7,
        PullPhaseView::FindingRemote => 6,
        PullPhaseView::FetchingMaster => 5,
        PullPhaseView::FetchingMain => 4,
        PullPhaseView::Analyzing => 3,
        PullPhaseView::CheckingBranch(_) => 2,
        PullPhaseView::FastForwarding => 1,
        PullPhaseView::Resetting => 1,
        PullPhaseView::Over => 0,
    }
}

/// How many steps a compile task has left at most.
pub open spec fn compile_rank(phase: CompilePhase) -> nat {
    match phase {
        CompilePhase::Begin => 3,
        CompilePhase::Starting => 2,
        CompilePhase::Running => 1,
        CompilePhase::Over => 0,
    }
}

/// How many steps a service installation task has left at most.
pub open spec fn service_rank(phase: ServicePhase) -> nat {
    match phase {
        ServicePhase::Begin => 3,
        ServicePhase::Writing => 2,
        ServicePhase::WritingLocally => 1,
        ServicePhase::Over => 0,
    }
}

/// Every step of a clone task brings it closer to its end, and it asks to finish
/// exactly when it ends.
pub proof fn lemma_clone_progress(
    name: Seq<char>,
    url: Seq<char>,
    path: Seq<char>,
    phase: ClonePhase,
    event: EventView,
)
    requires
        crate::tasks::fits(phase.awaits(), event),
    ensures
        clone_rank(clone_transition(name, url, path, phase, event).0) < clone_rank(phase),
        (clone_transition(name, url, path, phase, event).0 == ClonePhase::Over) == (clone_transition(
            name,
            url,
            path,
            phase,
            event,
        ).1.request is Finish),
{
}

/// Every step of a pull task brings it closer to its end, and it asks to finish
/// exactly when it ends.
pub proof fn lemma_pull_progress(path: Seq<char>, phase: PullPhaseView, event: EventView)
    requires
        crate::tasks::fits(pull_awaits(phase), event),
    ensures
        pull_rank(pull_transition(path, phase, event).0) < pull_rank(phase),
        (pull_transition(path, phase, event).0 is Over) == (pull_transition(
            path,
            phase,
            event,
        ).1.request is Finish),
{
}

/// Every step of a component's compile task brings it closer to its end, and it asks
/// to finish exactly when it ends.
pub proof fn lemma_compile_progress(
    name: Seq<char>,
    local_path: Seq<char>,
    note: Seq<char>,
    phase: CompilePhase,
    event: EventView,
)
    requires
        crate::tasks::fits(phase.awaits(), event),
    ensures
        compile_rank(cargo_compile_transition(name, local_path, phase, event).0) < compile_rank(
            phase,
        ),
        (cargo_compile_transition(name, local_path, phase, event).0 == CompilePhase::Over) == (
        cargo_compile_transition(name, local_path, phase, event).1.request is Finish),
        compile_rank(note_compile_transition(note, phase).0) < compile_rank(phase),
        note_compile_transition(note, phase).0 == CompilePhase::Over,
        note_compile_transition(note, phase).1.request is Finish,
{
}

/// Every step of a service installation task brings it closer to its end, and it asks
/// to finish exactly when it ends; both places it may write get the same unit text.
pub proof fn lemma_service_progress(
    name: Seq<char>,
    contents: Seq<char>,
    local_path: Seq<char>,
    note: Seq<char>,
    phase: ServicePhase,
    event: EventView,
)
    requires
        crate::tasks::fits(phase.awaits(), event),
    ensures
        service_rank(unit_install_transition(name, contents, local_path, phase, event).0)
            < service_rank(phase),
        (unit_install_transition(name, contents, local_path, phase, event).0
            == ServicePhase::Over) == (unit_install_transition(
            name,
            contents,
            local_path,
            phase,
            event,
        ).1.request is Finish),
        unit_install_transition(name, contents, local_path, phase, event).1.request matches RequestView::WriteFile(
            _,
            written,
        ) ==> written == contents,
        service_rank(note_service_transition(note, phase).0) < service_rank(phase),
        note_service_transition(note, phase).1.request is Finish,
{
}

// ---------------------------------------------------------------------------
// Whole runs

/// The actions that a clone task gives for the events, in order, from `phase` on.
pub open spec fn clone_run(
    name: Seq<char>,
    url: Seq<char>,
    path: Seq<char>,
    phase: ClonePhase,
    events: Seq<EventView>,
) -> Seq<ActionView>
    decreases events.len(),
{
    if events.len() == 0 {
        seq![]
    } else {
        let (next, action) = clone_transition(name, url, path, phase, events[0]);
        seq![action] + clone_run(name, url, path, next, events.drop_first())
    }
}

/// The actions that a pull task gives for the events, in order, from `phase` on.
pub open spec fn pull_run(path: Seq<char>, phase: PullPhaseView, events: Seq<EventView>) -> Seq<
    ActionView,
>
    decreases events.len(),
{
    if events.len() == 0 {
        seq![]
    } else {
        let (next, action) = pull_transition(path, phase, events[0]);
        seq![action] + pull_run(path, next, events.drop_first())
    }
}

/// The actions that a daemon's service installation gives for the events, in order,
/// from `phase` on.
pub open spec fn unit_install_run(
    name: Seq<char>,
    contents: Seq<char>,
    local_path: Seq<char>,
    phase: ServicePhase,
    events: Seq<EventView>,
) -> Seq<ActionView>
    decreases events.len(),
{
    if events.len() == 0 {
        seq![]
    } else {
        let (next, action) = unit_install_transition(name, contents, local_path, phase, events[0]);
        seq![action] + unit_install_run(name, contents, local_path, next, events.drop_first())
    }
}

/// Cloning into a path that exists logs the clone and the skip, and succeeds without
/// cloning.
pub proof fn lemma_clone_run_existing_path(name: Seq<char>, url: Seq<char>, path: Seq<char>)
    ensures
        clone_run(name, url, path, ClonePhase::Begin, seq![EventView::Start, EventView::Exists(true)])
            == seq![
            act(
                seq!["Cloning "@ + url + " into "@ + path + "..."@],
                RequestView::CheckPath(path),
            ),
            act(
                seq!["Path "@ + path + " already exists. Skipping clone."@],
                RequestView::Finish(Ok(())),
            ),
        ],
{
    let events = seq![EventView::Start, EventView::Exists(true)];
    let e1 = events.drop_first();
    assert(e1[0] == EventView::Exists(true));
    assert(e1.drop_first() =~= Seq::<EventView>::empty());
    let a1 = act(seq!["Cloning "@ + url + " into "@ + path + "..."@], RequestView::CheckPath(path));
    let a2 = act(
        seq!["Path "@ + path + " already exists. Skipping clone."@],
        RequestView::Finish(Ok(())),
    );
    let r2 = clone_run(name, url, path, ClonePhase::Checking, e1);
    assert(r2 == seq![a2] + clone_run(name, url, path, ClonePhase::Over, e1.drop_first()));
    assert(r2 =~= seq![a2]);
    assert(clone_run(name, url, path, ClonePhase::Begin, events) == seq![a1] + r2);
    assert(seq![a1] + seq![a2] =~= seq![a1, a2]);
}

/// Cloning into a path that does not exist clones, then logs success, or ends with the
/// clone's error.
pub proof fn lemma_clone_run_missing_path(
    name: Seq<char>,
    url: Seq<char>,
    path: Seq<char>,
    outcome: EventView,
)
    requires
        outcome is Done || outcome is Failed,
    ensures
        clone_run(
            name,
            url,
            path,
            ClonePhase::Begin,
            seq![EventView::Start, EventView::Exists(false), outcome],
        ) == seq![
            act(
                seq!["Cloning "@ + url + " into "@ + path + "..."@],
                RequestView::CheckPath(path),
            ),
            act(seq![], RequestView::Clone(url, path)),
            if outcome is Done {
                act(seq!["Successfully cloned "@ + name + "!"@], RequestView::Finish(Ok(())))
            } else {
                finish(Err(plain_error(failure_of(outcome))))
            },
        ],
{
    let events = seq![EventView::Start, EventView::Exists(false), outcome];
    let e1 = events.drop_first();
    let e2 = e1.drop_first();
    assert(e1[0] == EventView::Exists(false));
    assert(e2[0] == outcome);
    assert(e2.drop_first() =~= Seq::<EventView>::empty());
    let a1 = act(seq!["Cloning "@ + url + " into "@ + path + "..."@], RequestView::CheckPath(path));
    let a2 = act(seq![], RequestView::Clone(url, path));
    let a3 = if outcome is Done {
        act(seq!["Successfully cloned "@ + name + "!"@], RequestView::Finish(Ok(())))
    } else {
        finish(Err(plain_error(failure_of(outcome))))
    };
    let r3 = clone_run(name, url, path, ClonePhase::Cloning, e2);
    assert(r3 == seq![a3] + clone_run(name, url, path, ClonePhase::Over, e2.drop_first()));
    assert(r3 =~= seq![a3]);
    let r2 = clone_run(name, url, path, ClonePhase::Checking, e1);
    assert(r2 == seq![a2] + r3);
    assert(clone_run(name, url, path, ClonePhase::Begin, events) == seq![a1] + r2);
    assert(seq![a1] + (seq![a2] + seq![a3]) =~= seq![a1, a2, a3]);
}

/// Pulling a repository that is up to date opens it, finds `origin`, fetches `master`,
/// reads the fetch and succeeds, logging each stage.
pub proof fn lemma_pull_run_up_to_date(path: Seq<char>, commit: Seq<char>)
    ensures
        pull_run(
            path,
            PullPhaseView::Begin,
            seq![
                EventView::Start,
                EventView::Done,
                EventView::Done,
                EventView::Done,
                EventView::Analysis(MergeOutcome::UpToDate, commit),
            ],
        ) == seq![
            act(seq!["Updating repository at "@ + path + "..."@], RequestView::OpenRepo(path)),
            act(seq![], RequestView::FindRemote("origin"@)),
            act(seq!["Fetching latest updates from remote..."@], RequestView::Fetch("master"@)),
            act(seq![], RequestView::AnalyzeFetch),
            act(seq!["Repository is already up-to-date."@], RequestView::Finish(Ok(()))),
        ],
{
    let e0 = seq![
        EventView::Start,
        EventView::Done,
        EventView::Done,
        EventView::Done,
        EventView::Analysis(MergeOutcome::UpToDate, commit),
    ];
    let e1 = e0.drop_first();
    let e2 = e1.drop_first();
    let e3 = e2.drop_first();
    let e4 = e3.drop_first();
    assert(e1[0] == EventView::Done);
    assert(e2[0] == EventView::Done);
    assert(e3[0] == EventView::Done);
    assert(e4[0] == EventView::Analysis(MergeOutcome::UpToDate, commit));
    assert(e4.drop_first() =~= Seq::<EventView>::empty());
    let a0 = act(seq!["Updating repository at "@ + path + "..."@], RequestView::OpenRepo(path));
    let a1 = act(seq![], RequestView::FindRemote("origin"@));
    let a2 = act(seq!["Fetching latest updates from remote..."@], RequestView::Fetch("master"@));
    let a3 = act(seq![], RequestView::AnalyzeFetch);
    let a4 = act(seq!["Repository is already up-to-date."@], RequestView::Finish(Ok(())));
    let r4 = pull_run(path, PullPhaseView::Analyzing, e4);
    assert(r4 == seq![a4] + pull_run(path, PullPhaseView::Over, e4.drop_first()));
    assert(r4 =~= seq![a4]);
    let r3 = pull_run(path, PullPhaseView::FetchingMaster, e3);
    assert(r3 == seq![a3] + r4);
    let r2 = pull_run(path, PullPhaseView::FindingRemote, e2);
    assert(r2 == seq![a2] + r3);
    let r1 = pull_run(path, PullPhaseView::Opening, e1);
    assert(r1 == seq![a1] + r2);
    assert(pull_run(path, PullPhaseView::Begin, e0) == seq![a0] + r1);
    assert(seq![a0] + (seq![a1] + (seq![a2] + (seq![a3] + seq![a4]))) =~= seq![a0, a1, a2, a3, a4]);
}

/// A daemon's unit file that cannot be written to the systemd directory is written, with
/// the same text, into the component's directory, and the task succeeds.
pub proof fn lemma_unit_install_run_fallback(
    name: Seq<char>,
    contents: Seq<char>,
    local_path: Seq<char>,
    error: Seq<char>,
)
    ensures
        unit_install_run(
            name,
            contents,
            local_path,
            ServicePhase::Begin,
            seq![EventView::Start, EventView::Failed(error), EventView::Done],
        ) == seq![
            act(
                seq!["Writing systemd service to "@ + system_unit_path(name) + "..."@],
                RequestView::WriteFile(system_unit_path(name), contents),
            ),
            act(
                seq![
                    "Failed writing systemd service: "@ + error
                        + ". Attempting fallback writing locally."@,
                ],
                RequestView::WriteFile(local_unit_path(local_path, name), contents),
            ),
            act(
                seq!["Wrote service file locally to "@ + local_unit_path(local_path, name) + "."@],
                RequestView::Finish(Ok(())),
            ),
        ],
{
    let e0 = seq![EventView::Start, EventView::Failed(error), EventView::Done];
    let e1 = e0.drop_first();
    let e2 = e1.drop_first();
    assert(e1[0] == EventView::Failed(error));
    assert(e2[0] == EventView::Done);
    assert(e2.drop_first() =~= Seq::<EventView>::empty());
    let a0 = act(
        seq!["Writing systemd service to "@ + system_unit_path(name) + "..."@],
        RequestView::WriteFile(system_unit_path(name), contents),
    );
    let a1 = act(
        seq!["Failed writing systemd service: "@ + error + ". Attempting fallback writing locally."@],
        RequestView::WriteFile(local_unit_path(local_path, name), contents),
    );
    let a2 = act(
        seq!["Wrote service file locally to "@ + local_unit_path(local_path, name) + "."@],
        RequestView::Finish(Ok(())),
    );
    let r2 = unit_install_run(name, contents, local_path, ServicePhase::WritingLocally, e2);
    assert(r2 == seq![a2] + unit_install_run(
        name,
        contents,
        local_path,
        ServicePhase::Over,
        e2.drop_first(),
    ));
    assert(r2 =~= seq![a2]);
    let r1 = unit_install_run(name, contents, local_path, ServicePhase::Writing, e1);
    assert(r1 == seq![a1] + r2);
    assert(unit_install_run(name, contents, local_path, ServicePhase::Begin, e0) == seq![a0] + r1);
    assert(seq![a0] + (seq![a1] + seq![a2]) =~= seq![a0, a1, a2]);
}

// ---------------------------------------------------------------------------
// What installing and updating promise

/// Installing a component, daemon or web interface alike, begins by cloning its
/// repository, compiles it after that, and ends by installing its service; it never
/// pulls. Updating begins by pulling, compiles after that, never clones, and restarts a
/// service exactly when the component is a daemon.
pub proof fn lemma_stage_order(daemon: bool)
    ensures
        stages_of(ComponentAction::Install, daemon).len() > 0,
        stages_of(ComponentAction::Install, daemon)[0] == Stage::Clone,
        stages_of(ComponentAction::Install, daemon).last() == Stage::InstallService,
        stages_of(ComponentAction::Install, daemon).contains(Stage::Compile),
        !stages_of(ComponentAction::Install, daemon).contains(Stage::Pull),
        stages_of(ComponentAction::Install, daemon) == stages_of(ComponentAction::Install, !daemon),
        stages_of(ComponentAction::Update, daemon).len() > 0,
        stages_of(ComponentAction::Update, daemon)[0] == Stage::Pull,
        stages_of(ComponentAction::Update, daemon).contains(Stage::Compile),
        !stages_of(ComponentAction::Update, daemon).contains(Stage::Clone),
        stages_of(ComponentAction::Update, daemon).contains(Stage::RestartService) <== daemon,
        !daemon ==> !stages_of(ComponentAction::Update, daemon).contains(Stage::RestartService),
{
    let i = stages_of(ComponentAction::Install, daemon);
    let u = stages_of(ComponentAction::Update, daemon);
    assert(i[1] == Stage::Compile);
    assert(u[1] == Stage::Compile);
    if daemon {
        assert(u[2] == Stage::RestartService);
    } else {
        assert(!u.contains(Stage::RestartService)) by {
            if u.contains(Stage::RestartService) {
                let j = choose|j: int| 0 <= j < u.len() && u[j] == Stage::RestartService;
                assert(j == 0 || j == 1);
            }
        }
    }
    assert(!i.contains(Stage::Pull)) by {
        if i.contains(Stage::Pull) {
            let j = choose|j: int| 0 <= j < i.len() && i[j] == Stage::Pull;
            assert(0 <= j < 3);
        }
    }
    assert(!u.contains(Stage::Clone)) by {
        if u.contains(Stage::Clone) {
            let j = choose|j: int| 0 <= j < u.len() && u[j] == Stage::Clone;
            assert(0 <= j < u.len());
        }
    }
}

/// Whether a compile step ends the task with success.
pub open spec fn compile_succeeds(step: (CompilePhase, ActionView)) -> bool {
    step.1.request == RequestView::Finish(Ok(()))
}

/// The three daemons written in Rust are compiled by starting `cargo build
/// --manifest-path <local path>/Cargo.toml --release`; their compilation reports success
/// only once that build has exited successfully, and reports a failure when it exits
/// otherwise.
pub proof fn lemma_daemons_compile_with_cargo(
    klipp: RKlippInstaller,
    moonraker: RustedMoonrakerInstaller,
    screen: RKlipperScreenInstaller,
    phase: CompilePhase,
    event: EventView,
    status: Seq<char>,
)
    ensures
        klipp.compile_transition(CompilePhase::Begin, event).1.request == RequestView::Run(
            "cargo"@,
            seq!["build"@, "--manifest-path"@, klipp.local_path@ + "/Cargo.toml"@, "--release"@],
        ),
        moonraker.compile_transition(CompilePhase::Begin, event).1.request == RequestView::Run(
            "cargo"@,
            seq!["build"@, "--manifest-path"@, moonraker.local_path@ + "/Cargo.toml"@, "--release"@],
        ),
        screen.compile_transition(CompilePhase::Begin, event).1.request == RequestView::Run(
            "cargo"@,
            seq!["build"@, "--manifest-path"@, screen.local_path@ + "/Cargo.toml"@, "--release"@],
        ),
        phase != CompilePhase::Over && compile_succeeds(klipp.compile_transition(phase, event))
            ==> phase == CompilePhase::Running && event matches EventView::Exited(true, _),
        phase != CompilePhase::Over && compile_succeeds(moonraker.compile_transition(phase, event))
            ==> phase == CompilePhase::Running && event matches EventView::Exited(true, _),
        phase != CompilePhase::Over && compile_succeeds(screen.compile_transition(phase, event))
            ==> phase == CompilePhase::Running && event matches EventView::Exited(true, _),
        klipp.compile_transition(CompilePhase::Running, EventView::Exited(false, status)).1.request
            is Finish,
        klipp.compile_transition(CompilePhase::Running, EventView::Exited(false, status)).1.request
            != RequestView::Finish(Ok(())),
        moonraker.compile_transition(CompilePhase::Running, EventView::Exited(false, status)).1.request
            is Finish,
        moonraker.compile_transition(CompilePhase::Running, EventView::Exited(false, status)).1.request
            != RequestView::Finish(Ok(())),
        screen.compile_transition(CompilePhase::Running, EventView::Exited(false, status)).1.request
            is Finish,
        screen.compile_transition(CompilePhase::Running, EventView::Exited(false, status)).1.request
            != RequestView::Finish(Ok(())),
{
}

/// Whether a service installation step ends the task with success.
pub open spec fn service_succeeds(step: (ServicePhase, ActionView)) -> bool {
    step.1.request == RequestView::Finish(Ok(()))
}

/// Each of the three daemons runs under a systemd unit, and installing its service first
/// writes its unit text to that unit's file in `/etc/systemd/system/`; where that write
/// fails, the same text is written to the unit's file in the component's directory. The
/// installation reports success only after one of the two writes went through.
pub proof fn lemma_daemons_write_their_units(
    klipp: RKlippInstaller,
    moonraker: RustedMoonrakerInstaller,
    screen: RKlipperScreenInstaller,
    phase: ServicePhase,
    event: EventView,
    why: Seq<char>,
)
    ensures
        klipp.daemon_unit() is Some,
        klipp.install_service_transition(ServicePhase::Begin, event).1.request
            == RequestView::WriteFile("/etc/systemd/system/"@ + klipp.daemon_unit()->0, R_KLIPP_UNIT@),
        klipp.install_service_transition(ServicePhase::Writing, EventView::Failed(why)).1.request
            == RequestView::WriteFile(
            klipp.local_path@ + "/"@ + klipp.daemon_unit()->0,
            R_KLIPP_UNIT@,
        ),
        moonraker.daemon_unit() is Some,
        moonraker.install_service_transition(ServicePhase::Begin, event).1.request
            == RequestView::WriteFile(
            "/etc/systemd/system/"@ + moonraker.daemon_unit()->0,
            RUSTED_MOONRAKER_UNIT@,
        ),
        moonraker.install_service_transition(ServicePhase::Writing, EventView::Failed(why)).1.request
            == RequestView::WriteFile(
            moonraker.local_path@ + "/"@ + moonraker.daemon_unit()->0,
            RUSTED_MOONRAKER_UNIT@,
        ),
        screen.daemon_unit() is Some,
        screen.install_service_transition(ServicePhase::Begin, event).1.request
            == RequestView::WriteFile(
            "/etc/systemd/system/"@ + screen.daemon_unit()->0,
            R_KLIPPER_SCREEN_UNIT@,
        ),
        screen.install_service_transition(ServicePhase::Writing, EventView::Failed(why)).1.request
            == RequestView::WriteFile(
            screen.local_path@ + "/"@ + screen.daemon_unit()->0,
            R_KLIPPER_SCREEN_UNIT@,
        ),
        phase != ServicePhase::Over && service_succeeds(klipp.install_service_transition(phase, event))
            ==> event is Done && phase != ServicePhase::Begin,
        phase != ServicePhase::Over && service_succeeds(
            moonraker.install_service_transition(phase, event),
        ) ==> event is Done && phase != ServicePhase::Begin,
        phase != ServicePhase::Over && service_succeeds(screen.install_service_transition(phase, event))
            ==> event is Done && phase != ServicePhase::Begin,
{
    let sys = "/etc/systemd/system/"@;
    let ext = ".service"@;
    let lp = klipp.local_path@;
    let lm = moonraker.local_path@;
    let ls = screen.local_path@;
    assert(sys + "r_klipp"@ + ext =~= sys + ("r_klipp"@ + ext));
    assert(sys + "rusted_moonraker"@ + ext =~= sys + ("rusted_moonraker"@ + ext));
    assert(sys + "rKlipperScreen"@ + ext =~= sys + ("rKlipperScreen"@ + ext));
    assert(lp + "/"@ + "r_klipp"@ + ext =~= lp + "/"@ + ("r_klipp"@ + ext));
    assert(lm + "/"@ + "rusted_moonraker"@ + ext =~= lm + "/"@ + ("rusted_moonraker"@ + ext));
    assert(ls + "/"@ + "rKlipperScreen"@ + ext =~= ls + "/"@ + ("rKlipperScreen"@ + ext));
}

/// The two web interfaces are served as static files: they run under no systemd unit,
/// and compiling them or installing their service starts no program and writes no file,
/// but logs one note and succeeds at once.
pub proof fn lemma_web_interfaces_need_no_build(
    fluidd: FluiddInstaller,
    mainsail: MainsailInstaller,
    event: EventView,
)
    ensures
        fluidd.daemon_unit() is None,
        mainsail.daemon_unit() is None,
        fluidd.compile_transition(CompilePhase::Begin, event).0 == CompilePhase::Over,
        fluidd.compile_transition(CompilePhase::Begin, event).1.logs.len() == 1,
        fluidd.compile_transition(CompilePhase::Begin, event).1.request == RequestView::Finish(Ok(())),
        mainsail.compile_transition(CompilePhase::Begin, event).0 == CompilePhase::Over,
        mainsail.compile_transition(CompilePhase::Begin, event).1.logs.len() == 1,
        mainsail.compile_transition(CompilePhase::Begin, event).1.request == RequestView::Finish(Ok(())),
        fluidd.install_service_transition(ServicePhase::Begin, event).0 == ServicePhase::Over,
        fluidd.install_service_transition(ServicePhase::Begin, event).1.logs.len() == 1,
        fluidd.install_service_transition(ServicePhase::Begin, event).1.request == RequestView::Finish(
            Ok(()),
        ),
        mainsail.install_service_transition(ServicePhase::Begin, event).0 == ServicePhase::Over,
        mainsail.install_service_transition(ServicePhase::Begin, event).1.logs.len() == 1,
        mainsail.install_service_transition(ServicePhase::Begin, event).1.request
            == RequestView::Finish(Ok(())),
{
}

/// Whether a request ends a task with an error whose cause is `cause`.
pub open spec fn ends_in_error(request: RequestView, cause: Seq<char>) -> bool {
    match request {
        RequestView::Finish(Err(err)) => err.cause == cause,
        _ => false,
    }
}

/// Whether a pull step ends the task with an error whose cause is `cause`.
pub open spec fn fails_with(step: (PullPhaseView, ActionView), cause: Seq<char>) -> bool {
    step.0 == PullPhaseView::Over && ends_in_error(step.1.request, cause)
}

/// Cloning first checks whether the target path exists, clones the repository into it
/// where it does not, and fails with the clone's error where the clone fails. It reports
/// success only where the path existed already or the clone went through.
pub proof fn lemma_clone_fetches_missing_repositories(
    name: Seq<char>,
    url: Seq<char>,
    path: Seq<char>,
    phase: ClonePhase,
    event: EventView,
    e: Seq<char>,
)
    ensures
        clone_transition(name, url, path, ClonePhase::Begin, event).1.request
            == RequestView::CheckPath(path),
        clone_transition(name, url, path, ClonePhase::Checking, EventView::Exists(false)).1.request
            == RequestView::Clone(url, path),
        ends_in_error(
            clone_transition(name, url, path, ClonePhase::Cloning, EventView::Failed(e)).1.request,
            e,
        ),
        phase != ClonePhase::Over && clone_transition(name, url, path, phase, event).1.request
            == RequestView::Finish(Ok(())) ==> (phase == ClonePhase::Checking && event
            == EventView::Exists(true)) || (phase == ClonePhase::Cloning && !(event is Failed)),
{
}

/// The three Rust daemons fail to compile with the error that kept cargo from starting,
/// and fail to install their service with the error of the write into their own
/// directory.
pub proof fn lemma_daemon_tasks_report_failures(
    klipp: RKlippInstaller,
    moonraker: RustedMoonrakerInstaller,
    screen: RKlipperScreenInstaller,
    e: Seq<char>,
)
    ensures
        ends_in_error(
            klipp.compile_transition(CompilePhase::Starting, EventView::Failed(e)).1.request,
            e,
        ),
        ends_in_error(
            moonraker.compile_transition(CompilePhase::Starting, EventView::Failed(e)).1.request,
            e,
        ),
        ends_in_error(
            screen.compile_transition(CompilePhase::Starting, EventView::Failed(e)).1.request,
            e,
        ),
        ends_in_error(
            klipp.install_service_transition(ServicePhase::WritingLocally, EventView::Failed(e)).1.request,
            e,
        ),
        ends_in_error(
            moonraker.install_service_transition(
                ServicePhase::WritingLocally,
                EventView::Failed(e),
            ).1.request,
            e,
        ),
        ends_in_error(
            screen.install_service_transition(ServicePhase::WritingLocally, EventView::Failed(e)).1.request,
            e,
        ),
{
}

/// A pull fails with the error of any step that fails, save the fetch of `master`, after
/// whose failure `main` is fetched instead. It reports success only where the repository
/// was found up to date, or where the fast-forward or the hard reset went through.
pub proof fn lemma_pull_fails_on_failed_steps(
    path: Seq<char>,
    phase: PullPhaseView,
    event: EventView,
    e: Seq<char>,
)
    ensures
        fails_with(pull_transition(path, PullPhaseView::Opening, EventView::Failed(e)), e),
        fails_with(pull_transition(path, PullPhaseView::FindingRemote, EventView::Failed(e)), e),
        fails_with(pull_transition(path, PullPhaseView::FetchingMain, EventView::Failed(e)), e),
        fails_with(pull_transition(path, PullPhaseView::Analyzing, EventView::Failed(e)), e),
        fails_with(pull_transition(path, PullPhaseView::FastForwarding, EventView::Failed(e)), e),
        fails_with(pull_transition(path, PullPhaseView::Resetting, EventView::Failed(e)), e),
        pull_transition(path, PullPhaseView::FetchingMaster, EventView::Failed(e)).1.request
            == RequestView::Fetch("main"@),
        phase != PullPhaseView::Over && pull_transition(path, phase, event).1.request
            == RequestView::Finish(Ok(())) ==> (phase == PullPhaseView::Analyzing
            && event matches EventView::Analysis(MergeOutcome::UpToDate, _)) || ((phase
            == PullPhaseView::FastForwarding || phase == PullPhaseView::Resetting) && event is Done),
{
}

} // verus!
