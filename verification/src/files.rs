//! File operations that the configurators ask the caller to carry out, in order, and
//! a model of a file tree in which their effect is stated.
use vstd::prelude::*;
use vstd::string::*;

verus! {

/// The contents of an operation on files.
pub enum FileOpView {
    Copy { from: Seq<char>, to: Seq<char> },
    Write { path: Seq<char>, contents: Seq<char> },
    Remove { path: Seq<char> },
}

/// One operation on files.
#[derive(Debug, Clone, PartialEq, Eq)]
pub enum FileOp {
    /// Copy the file `from` onto `to`, replacing what `to` held.
    Copy { from: String, to: String },
    /// Create or truncate `path` and write `contents` to it.
    Write { path: String, contents: String },
    /// Remove the file `path`.
    Remove { path: String },
}

impl View for FileOp {
    type V = FileOpView;

    open spec fn view(&self) -> FileOpView {
        match self {
            FileOp::Copy { from, to } => FileOpView::Copy { from: from@, to: to@ },
            FileOp::Write { path, contents } => FileOpView::Write { path: path@, contents: contents@ },
            FileOp::Remove { path } => FileOpView::Remove { path: path@ },
        }
    }
}

/// The contents of what to do when an operation fails.
pub enum OnFailureView {
    Stop,
    StopWith(Seq<char>),
    Ignore,
}

/// What to do when an operation fails.
#[derive(Debug, Clone, PartialEq, Eq)]
pub enum OnFailure {
    /// Stop and report the error as it is.
    Stop,
    /// Stop and report the error after this context and `": "`.
    StopWith(String),
    /// Go on with the next operation.
    Ignore,
}

impl View for OnFailure {
    type V = OnFailureView;

    open spec fn view(&self) -> OnFailureView {
        match self {
            OnFailure::Stop => OnFailureView::Stop,
            OnFailure::StopWith(c) => OnFailureView::StopWith(c@),
            OnFailure::Ignore => OnFailureView::Ignore,
        }
    }
}

/// The contents of a step.
pub struct FileStepView {
    pub op: FileOpView,
    pub on_failure: OnFailureView,
}

/// An operation on files, and what to do when it fails.
#[derive(Debug, Clone, PartialEq, Eq)]
pub struct FileStep {
    pub op: FileOp,
    pub on_failure: OnFailure,
}

impl View for FileStep {
    type V = FileStepView;

    open spec fn view(&self) -> FileStepView {
        FileStepView { op: self.op@, on_failure: self.on_failure@ }
    }
}

/// The contents of a list of steps.
pub open spec fn steps_view(steps: Seq<FileStep>) -> Seq<FileStepView> {
    steps.map_values(|s: FileStep| s@)
}

/// The error that a failed step reports, or `None` where the step goes on.
pub open spec fn failure_text(on_failure: OnFailureView, error: Seq<char>) -> Option<Seq<char>> {
    match on_failure {
        OnFailureView::Stop => Some(error),
        OnFailureView::StopWith(context) => Some(context + ": "@ + error),
        OnFailureView::Ignore => None,
    }
}

/// The error that `step` reports when its operation failed with `error`, or `None`
/// where the caller goes on with the next step.
pub fn failure_message(step: &FileStep, error: String) -> (r: Option<String>)
    ensures
        match r {
            Some(m) => failure_text(step.on_failure@, error@) == Some(m@),
            None => failure_text(step.on_failure@, error@) is None,
        },
{
    match &step.on_failure {
        OnFailure::Stop => Some(error),
        OnFailure::StopWith(context) => Some(
            context.clone().concat(": ").concat(error.as_str()),
        ),
        OnFailure::Ignore => None,
    }
}

/// A file tree: the files that exist, by path, with their contents.
pub type FileTree = Map<Seq<char>, Seq<char>>;

/// The tree after one operation, or `None` where it fails: copying or removing a file
/// that does not exist fails.
pub open spec fn apply_op(fs: FileTree, op: FileOpView) -> Option<FileTree> {
    match op {
        FileOpView::Copy { from, to } => if fs.contains_key(from) {
            Some(fs.insert(to, fs[from]))
        } else {
            None
        },
        FileOpView::Write { path, contents } => Some(fs.insert(path, contents)),
        FileOpView::Remove { path } => if fs.contains_key(path) {
            Some(fs.remove(path))
        } else {
            None
        },
    }
}

/// The tree after the steps carried out in order, or `None` where one fails and stops
/// the rest; a failed step that is ignored leaves the tree as it was.
pub open spec fn run_steps(fs: FileTree, steps: Seq<FileStepView>) -> Option<FileTree>
    decreases steps.len(),
{
    if steps.len() == 0 {
        Some(fs)
    } else {
        match apply_op(fs, steps[0].op) {
            Some(next) => run_steps(next, steps.drop_first()),
            None => match steps[0].on_failure {
                OnFailureView::Ignore => run_steps(fs, steps.drop_first()),
                _ => None,
            },
        }
    }
}

/// What `std::path::Path::with_extension` gives for a path and an extension, both
/// valid UTF-8, read back as text.
pub uninterp spec fn path_with_extension(path: Seq<char>, extension: Seq<char>) -> Seq<char>;

/// A character that is an ASCII letter or digit.
pub open spec fn is_ascii_alnum(c: char) -> bool {
    let u = c as u32;
    (0x30 <= u <= 0x39) || (0x41 <= u <= 0x5a) || (0x61 <= u <= 0x7a)
}

/// A path whose last component is an ordinary file name: it is not empty, holds no
/// backslash, and ends with an ASCII letter or digit (so it ends neither in a
/// separator, nor in `.` or `..`, nor in a drive prefix).
pub open spec fn plain_path(p: Seq<char>) -> bool {
    p.len() > 0 && !p.contains('\\') && is_ascii_alnum(p.last())
}

/// `s` ends with `t`.
pub open spec fn has_suffix(s: Seq<char>, t: Seq<char>) -> bool {
    t.len() <= s.len() && s.skip(s.len() - t.len()) == t
}

/// Calls `std::path::Path::with_extension`, which panics where the extension holds a
/// path separator, so such extensions are not admitted. Claims that the result, read
/// back as text, is `path_with_extension` of the path and the extension (the same
/// arguments always give the same path), and, as the documentation of `set_extension`
/// says (the extension of an existing file name is replaced, or added where it has
/// none), that a non-empty extension ends the result, after a `.`, where the path's last
/// component is an ordinary file name. The rest of the path that comes back is left
/// unsaid.
#[verifier::external_body]
fn with_extension(path: &str, extension: &str) -> (r: String)
    requires
        !extension@.contains('/'),
        !extension@.contains('\\'),
    ensures
        r@ == path_with_extension(path@, extension@),
        extension@.len() > 0 && plain_path(path@) ==> has_suffix(r@, seq!['.'] + extension@),
{
    std::path::Path::new(path).with_extension(extension).to_string_lossy().into_owned()
}

/// The backup file of `path`: the path with its extension replaced by `bak`.
pub open spec fn backup_of(path: Seq<char>) -> Seq<char> {
    path_with_extension(path, "bak"@)
}

/// The ending of a backup file's path.
pub open spec fn backup_suffix() -> Seq<char> {
    seq!['.', 'b', 'a', 'k']
}

/// The path of the backup of `path`, kept before a file is replaced; for an ordinary file
/// name it ends in `.bak`.
pub fn backup_path(path: &str) -> (r: String)
    ensures
        r@ == backup_of(path@),
        plain_path(path@) ==> has_suffix(r@, backup_suffix()),
{
    proof {
        reveal_strlit("bak");
        assert("bak"@ =~= seq!['b', 'a', 'k']);
        assert(seq!['.'] + "bak"@ =~= backup_suffix());
    }
    with_extension(path, "bak")
}

/// The backup of an ordinary file whose path does not end in `.bak` is another file.
pub proof fn lemma_backup_differs(path: Seq<char>)
    requires
        has_suffix(backup_of(path), backup_suffix()),
        !has_suffix(path, backup_suffix()),
    ensures
        backup_of(path) != path,
{
}

/// Steps whose operations all succeed, one after the other, give the tree after the
/// last of them.
pub proof fn lemma_run_steps_succeed(fs: FileTree, steps: Seq<FileStepView>, trees: Seq<FileTree>)
    requires
        trees.len() == steps.len() + 1,
        trees[0] == fs,
        forall|i: int| 0 <= i < steps.len() ==> apply_op(#[trigger] trees[i], steps[i].op) == Some(
            trees[i + 1],
        ),
    ensures
        run_steps(fs, steps) == Some(trees.last()),
    decreases steps.len(),
{
    if steps.len() > 0 {
        assert forall|i: int| 0 <= i < steps.drop_first().len() implies apply_op(
            #[trigger] trees.drop_first()[i],
            steps.drop_first()[i].op,
        ) == Some(trees.drop_first()[i + 1]) by {
            assert(trees.drop_first()[i] == trees[i + 1]);
            assert(steps.drop_first()[i] == steps[i + 1]);
            assert(apply_op(trees[i + 1], steps[i + 1].op) == Some(trees[i + 2]));
        }
        assert(apply_op(fs, steps[0].op) == Some(trees[1]));
        lemma_run_steps_succeed(trees[1], steps.drop_first(), trees.drop_first());
    }
}

} // verus!
