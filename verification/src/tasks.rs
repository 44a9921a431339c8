//! What an installation task asks its caller to do, and what the caller answers.
//!
//! A task is a state machine. The caller starts it with `Event::Start`, carries out
//! each action it returns (first pushing its log lines, then performing its request),
//! and hands back the event that the request produced, until the request is `Finish`.
use vstd::prelude::*;
use crate::text::string_views;

verus! {

/// How a fetched branch relates to the checked-out one.
#[derive(PartialEq, Eq, Structural, Clone, Copy, Debug)]
pub enum MergeOutcome {
    /// The local branch can be moved forward to the fetched commit.
    FastForward,
    /// The local branch already holds the fetched commit.
    UpToDate,
    /// Neither: the histories have parted.
    Diverged,
}

/// How a fetched commit relates to the local branch, from the merge analysis: a
/// fast-forward where one is possible, else up to date where the branch holds the
/// commit, else parted histories.
pub fn merge_outcome(fast_forward: bool, up_to_date: bool) -> (r: MergeOutcome)
    ensures
        fast_forward ==> r == MergeOutcome::FastForward,
        !fast_forward && up_to_date ==> r == MergeOutcome::UpToDate,
        !fast_forward && !up_to_date ==> r == MergeOutcome::Diverged,
{
    if fast_forward {
        MergeOutcome::FastForward
    } else if up_to_date {
        MergeOutcome::UpToDate
    } else {
        MergeOutcome::Diverged
    }
}

/// The contents of an event.
pub enum EventView {
    Start,
    Done,
    Failed(Seq<char>),
    Exists(bool),
    Analysis(MergeOutcome, Seq<char>),
    BranchExists(bool),
    Exited(bool, Seq<char>),
}

/// What the caller reports back to a task.
#[derive(Debug, Clone, PartialEq, Eq)]
pub enum Event {
    /// The task is asked to begin.
    Start,
    /// The request was carried out.
    Done,
    /// The request failed with this error.
    Failed(String),
    /// Whether the path asked about exists.
    Exists(bool),
    /// How the fetched commit, with this id, relates to the local branch.
    Analysis(MergeOutcome, String),
    /// Whether the reference asked about exists.
    BranchExists(bool),
    /// The program ended; whether it succeeded, and its exit status as text.
    Exited(bool, String),
}

impl View for Event {
    type V = EventView;

    open spec fn view(&self) -> EventView {
        match self {
            Event::Start => EventView::Start,
            Event::Done => EventView::Done,
            Event::Failed(e) => EventView::Failed(e@),
            Event::Exists(b) => EventView::Exists(*b),
            Event::Analysis(o, id) => EventView::Analysis(*o, id@),
            Event::BranchExists(b) => EventView::BranchExists(*b),
            Event::Exited(ok, status) => EventView::Exited(*ok, status@),
        }
    }
}

/// The contents of a task's error.
pub struct TaskErrorView {
    pub context: Option<Seq<char>>,
    pub cause: Seq<char>,
}

/// Why a task failed: the error that stopped it, and the context that the task put
/// around it, if any (the context is what the error says first; the cause comes after).
#[derive(Debug, PartialEq, Eq)]
pub struct TaskError {
    pub context: Option<String>,
    pub cause: String,
}

impl View for TaskError {
    type V = TaskErrorView;

    open spec fn view(&self) -> TaskErrorView {
        TaskErrorView {
            context: match self.context {
                Some(c) => Some(c@),
                None => None,
            },
            cause: self.cause@,
        }
    }
}

/// An error without context.
pub open spec fn plain_error(cause: Seq<char>) -> TaskErrorView {
    TaskErrorView { context: None, cause }
}

/// An error with `context` put around `cause`.
pub open spec fn context_error(context: Seq<char>, cause: Seq<char>) -> TaskErrorView {
    TaskErrorView { context: Some(context), cause }
}

/// An error without context.
pub fn plain(cause: String) -> (e: TaskError)
    ensures
        e@ == plain_error(cause@),
{
    TaskError { context: None, cause }
}

/// An error with `context` put around `cause`.
pub fn with_context(context: &str, cause: String) -> (e: TaskError)
    ensures
        e@ == context_error(context@, cause@),
{
    TaskError { context: Some(context.to_string()), cause }
}

/// The contents of a request.
pub enum RequestView {
    CheckPath(Seq<char>),
    Clone(Seq<char>, Seq<char>),
    OpenRepo(Seq<char>),
    FindRemote(Seq<char>),
    Fetch(Seq<char>),
    AnalyzeFetch,
    CheckReference(Seq<char>),
    FastForward(Seq<char>, Seq<char>),
    HardReset,
    Run(Seq<char>, Seq<Seq<char>>),
    AwaitRun,
    WriteFile(Seq<char>, Seq<char>),
    Finish(Result<(), TaskErrorView>),
}

/// What a task asks its caller to do.
#[derive(Debug, PartialEq, Eq)]
pub enum Request {
    /// Tell whether `path` exists (answered by `Exists`).
    CheckPath(String),
    /// Clone the repository at `url` into `path`.
    Clone { url: String, path: String },
    /// Open the repository at this path.
    OpenRepo(String),
    /// Find the remote of this name in the open repository.
    FindRemote(String),
    /// Fetch this branch from the remote.
    Fetch(String),
    /// Read `FETCH_HEAD` and tell how it relates to the local branch (answered by
    /// `Analysis`).
    AnalyzeFetch,
    /// Tell whether this reference exists (answered by `BranchExists`).
    CheckReference(String),
    /// Point `reference` at the fetched commit with this reflog message, make it the
    /// head and check it out, overwriting local changes.
    FastForward { reference: String, message: String },
    /// Reset the repository hard to the fetched commit.
    HardReset,
    /// Start `program` with `args`, its standard error piped.
    Run { program: String, args: Vec<String> },
    /// Push each line of the started program's standard error to the log, then wait
    /// for it to end (answered by `Exited`).
    AwaitRun,
    /// Write `contents` to the file `path`.
    WriteFile { path: String, contents: String },
    /// The task is over, with this outcome.
    Finish(Result<(), TaskError>),
}

impl View for Request {
    type V = RequestView;

    open spec fn view(&self) -> RequestView {
        match self {
            Request::CheckPath(p) => RequestView::CheckPath(p@),
            Request::Clone { url, path } => RequestView::Clone(url@, path@),
            Request::OpenRepo(p) => RequestView::OpenRepo(p@),
            Request::FindRemote(n) => RequestView::FindRemote(n@),
            Request::Fetch(b) => RequestView::Fetch(b@),
            Request::AnalyzeFetch => RequestView::AnalyzeFetch,
            Request::CheckReference(r) => RequestView::CheckReference(r@),
            Request::FastForward { reference, message } => RequestView::FastForward(
                reference@,
                message@,
            ),
            Request::HardReset => RequestView::HardReset,
            Request::Run { program, args } => RequestView::Run(program@, string_views(args@)),
            Request::AwaitRun => RequestView::AwaitRun,
            Request::WriteFile { path, contents } => RequestView::WriteFile(path@, contents@),
            Request::Finish(r) => RequestView::Finish(
                match r {
                    Ok(()) => Ok(()),
                    Err(e) => Err(e@),
                },
            ),
        }
    }
}

/// The contents of an action.
pub struct ActionView {
    pub logs: Seq<Seq<char>>,
    pub request: RequestView,
}

/// Log lines to push, then a request to carry out.
#[derive(Debug, PartialEq, Eq)]
pub struct Action {
    pub logs: Vec<String>,
    pub request: Request,
}

impl View for Action {
    type V = ActionView;

    open spec fn view(&self) -> ActionView {
        ActionView { logs: string_views(self.logs@), request: self.request@ }
    }
}

/// The kind of event that a task waits for.
#[derive(PartialEq, Eq, Structural, Clone, Copy, Debug)]
pub enum Awaiting {
    /// The first event, `Start`.
    Start,
    /// `Done` or `Failed`.
    Outcome,
    /// `Exists`.
    Existence,
    /// `Analysis` or `Failed`.
    Analysis,
    /// `BranchExists`.
    Reference,
    /// `Exited` or `Failed`.
    Exit,
    /// Nothing: the task is over.
    Nothing,
}

/// Whether `event` is of the kind awaited.
pub open spec fn fits(awaiting: Awaiting, event: EventView) -> bool {
    match awaiting {
        Awaiting::Start => event is Start,
        Awaiting::Outcome => event is Done || event is Failed,
        Awaiting::Existence => event is Exists,
        Awaiting::Analysis => event is Analysis || event is Failed,
        Awaiting::Reference => event is BranchExists,
        Awaiting::Exit => event is Exited || event is Failed,
        Awaiting::Nothing => false,
    }
}

/// Whether `event` is of the kind awaited.
pub fn event_fits(awaiting: Awaiting, event: &Event) -> (r: bool)
    ensures
        r == fits(awaiting, event@),
{
    match awaiting {
        Awaiting::Start => matches!(event, Event::Start),
        Awaiting::Outcome => matches!(event, Event::Done) || matches!(event, Event::Failed(_)),
        Awaiting::Existence => matches!(event, Event::Exists(_)),
        Awaiting::Analysis => matches!(event, Event::Analysis(_, _)) || matches!(
            event,
            Event::Failed(_)
        ),
        Awaiting::Reference => matches!(event, Event::BranchExists(_)),
        Awaiting::Exit => matches!(event, Event::Exited(_, _)) || matches!(event, Event::Failed(_)),
        Awaiting::Nothing => false,
    }
}

/// An action with these log lines and this request.
pub open spec fn act(logs: Seq<Seq<char>>, request: RequestView) -> ActionView {
    ActionView { logs, request }
}

/// The action that ends a task with `outcome` and no log line.
pub open spec fn finish(outcome: Result<(), TaskErrorView>) -> ActionView {
    act(seq![], RequestView::Finish(outcome))
}

/// An action without log lines.
pub fn quiet(request: Request) -> (a: Action)
    ensures
        a@ == act(seq![], request@),
{
    let a = Action { logs: Vec::new(), request };
    assert(a@.logs =~= Seq::<Seq<char>>::empty());
    a
}

/// An action with one log line.
pub fn logged(line: String, request: Request) -> (a: Action)
    ensures
        a@ == act(seq![line@], request@),
{
    let ghost l = line@;
    let mut logs: Vec<String> = Vec::new();
    logs.push(line);
    let a = Action { logs, request };
    assert(a@.logs =~= seq![l]);
    a
}

/// The action that ends a task with `outcome` and no log line.
pub fn finish_with(outcome: Result<(), TaskError>) -> (a: Action)
    ensures
        a@ == finish(
            match outcome {
                Ok(()) => Ok(()),
                Err(e) => Err(e@),
            },
        ),
{
    quiet(Request::Finish(outcome))
}

} // verus!
