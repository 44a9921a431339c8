//! System configuration of the printer host: udev rules and device-tree overlays.
use vstd::prelude::*;
use crate::files::{
    backup_of, backup_path, backup_suffix, has_suffix, lemma_backup_differs, lemma_run_steps_succeed,
    plain_path, FileOp, FileOpView, FileStep, FileStepView,
    FileTree, OnFailure, OnFailureView, run_steps, steps_view,
};
use crate::overlays::{overlays_updated, str_views, update_overlays};

verus! {

/// The message of the error that reports a missing environment file.
pub const MISSING_ENV_MESSAGE: &'static str = "armbianEnv.txt config space unavailable.";

/// A step that stops on failure and reports the error as it is.
pub open spec fn plain_step(op: FileOpView) -> FileStepView {
    FileStepView { op, on_failure: OnFailureView::Stop }
}

/// The steps that install a udev rule: nothing in simulation mode; otherwise a copy of an
/// existing rule file to its backup, then the new contents written over the file.
pub open spec fn udev_rule_plan(
    simulation_mode: bool,
    dest: Seq<char>,
    content: Seq<char>,
    dest_exists: bool,
) -> Seq<FileStepView> {
    if simulation_mode {
        seq![]
    } else if dest_exists {
        seq![
            plain_step(FileOpView::Copy { from: dest, to: backup_of(dest) }),
            plain_step(FileOpView::Write { path: dest, contents: content }),
        ]
    } else {
        seq![plain_step(FileOpView::Write { path: dest, contents: content })]
    }
}

/// The steps that rewrite an environment file with new overlays: a copy of the file to
/// its backup, then the updated text written over the file.
pub open spec fn dt_overlays_plan(
    env_path: Seq<char>,
    content: Seq<char>,
    new_overlays: Seq<Seq<char>>,
) -> Seq<FileStepView> {
    seq![
        plain_step(FileOpView::Copy { from: env_path, to: backup_of(env_path) }),
        plain_step(
            FileOpView::Write {
                path: env_path,
                contents: overlays_updated(content, new_overlays),
            },
        ),
    ]
}

/// Installing `content` at `dest` in the tree `fs` succeeds; the rule file then holds the
/// rule, a rule file that was there before is kept at the backup path, and every other
/// file stays as it was.
pub open spec fn installs_rule(fs: FileTree, dest: Seq<char>, content: Seq<char>) -> bool {
    &&& run_steps(fs, udev_rule_plan(false, dest, content, fs.contains_key(dest))) is Some
    &&& {
        let done = run_steps(fs, udev_rule_plan(false, dest, content, fs.contains_key(dest)))->0;
        &&& done.contains_key(dest) && done[dest] == content
        &&& fs.contains_key(dest) ==> done.contains_key(backup_of(dest)) && done[backup_of(dest)]
            == fs[dest]
        &&& forall|p: Seq<char>|
            p != dest && p != backup_of(dest) ==> #[trigger] done.contains_key(p)
                == fs.contains_key(p) && (fs.contains_key(p) ==> done[p] == fs[p])
    }
}

/// Adding `new_overlays` to an existing environment file at `env_path` in the tree `fs`
/// leaves it holding the updated text, with its old text at the backup path.
pub open spec fn writes_overlays(fs: FileTree, env_path: Seq<char>, new_overlays: Seq<Seq<char>>) -> bool {
    fs.contains_key(env_path) ==> run_steps(fs, dt_overlays_plan(env_path, fs[env_path], new_overlays))
        == Some(
        fs.insert(backup_of(env_path), fs[env_path]).insert(
            env_path,
            overlays_updated(fs[env_path], new_overlays),
        ),
    )
}

/// How adding overlays begins.
pub enum OverlayStart {
    /// Simulation mode: nothing is done and all is well.
    Skip,
    /// The environment file does not exist: the error `MISSING_ENV_MESSAGE`, of kind
    /// "not found", is reported.
    Missing,
    /// Read the environment file and go on with `dt_overlays_steps`.
    Proceed,
}

/// Writes system configuration files, or, in simulation mode, only pretends to.
pub struct SysConfigurator {
    pub simulation_mode: bool,
}

impl SysConfigurator {
    /// A configurator that writes files unless `simulation_mode` is set.
    pub fn new(simulation_mode: bool) -> (c: SysConfigurator)
        ensures
            c.simulation_mode == simulation_mode,
    {
        SysConfigurator { simulation_mode }
    }

    /// The steps that install the udev rule `content` at `dest`, given whether `dest`
    /// exists now.
    pub fn udev_rule_steps(&self, dest: &str, content: &str, dest_exists: bool) -> (r: Vec<
        FileStep,
    >)
        ensures
            steps_view(r@) == udev_rule_plan(self.simulation_mode, dest@, content@, dest_exists),
            plain_path(dest@) && !has_suffix(dest@, backup_suffix()) ==> forall|fs: FileTree|
                #[trigger] installs_rule(fs, dest@, content@),
    {
        let backup = backup_path(dest);
        proof {
            if plain_path(dest@) && !has_suffix(dest@, backup_suffix()) {
                lemma_backup_differs(dest@);
                assert forall|fs: FileTree| #[trigger] installs_rule(fs, dest@, content@) by {
                    lemma_udev_rule_installed(fs, dest@, content@);
                }
            }
        }
        let mut r: Vec<FileStep> = Vec::new();
        if self.simulation_mode {
            assert(steps_view(r@) =~= udev_rule_plan(
                self.simulation_mode,
                dest@,
                content@,
                dest_exists,
            ));
            return r;
        }
        if dest_exists {
            r.push(
                FileStep {
                    op: FileOp::Copy { from: dest.to_string(), to: backup },
                    on_failure: OnFailure::Stop,
                },
            );
        }
        r.push(
            FileStep {
                op: FileOp::Write { path: dest.to_string(), contents: content.to_string() },
                on_failure: OnFailure::Stop,
            },
        );
        assert(steps_view(r@) =~= udev_rule_plan(
            self.simulation_mode,
            dest@,
            content@,
            dest_exists,
        ));
        r
    }

    /// How adding overlays to the environment file begins, given whether it exists.
    pub fn dt_overlays_start(&self, env_exists: bool) -> (r: OverlayStart)
        ensures
            self.simulation_mode ==> r is Skip,
            !self.simulation_mode && !env_exists ==> r is Missing,
            !self.simulation_mode && env_exists ==> r is Proceed,
    {
        if self.simulation_mode {
            OverlayStart::Skip
        } else if !env_exists {
            OverlayStart::Missing
        } else {
            OverlayStart::Proceed
        }
    }

    /// The steps that add `new_overlays` to the environment file at `env_path`, whose
    /// text is `content`: a backup copy of the file, then the updated text written.
    pub fn dt_overlays_steps(&self, env_path: &str, content: &str, new_overlays: &[&str]) -> (r:
        Vec<FileStep>)
        ensures
            steps_view(r@) == dt_overlays_plan(env_path@, content@, str_views(new_overlays@)),
            plain_path(env_path@) && !has_suffix(env_path@, backup_suffix()) ==> forall|
                fs: FileTree,
            |
                #[trigger] writes_overlays(fs, env_path@, str_views(new_overlays@)),
    {
        let backup = backup_path(env_path);
        proof {
            if plain_path(env_path@) && !has_suffix(env_path@, backup_suffix()) {
                lemma_backup_differs(env_path@);
                assert forall|fs: FileTree|
                    #[trigger] writes_overlays(fs, env_path@, str_views(new_overlays@)) by {
                    if fs.contains_key(env_path@) {
                        lemma_dt_overlays_written(fs, env_path@, str_views(new_overlays@));
                    }
                }
            }
        }
        let updated = update_overlays(content, new_overlays);
        let mut r: Vec<FileStep> = Vec::new();
        r.push(
            FileStep {
                op: FileOp::Copy { from: env_path.to_string(), to: backup },
                on_failure: OnFailure::Stop,
            },
        );
        r.push(
            FileStep {
                op: FileOp::Write { path: env_path.to_string(), contents: updated },
                on_failure: OnFailure::Stop,
            },
        );
        assert(steps_view(r@) =~= dt_overlays_plan(
            env_path@,
            content@,
            str_views(new_overlays@),
        ));
        r
    }
}

/// Installing a udev rule leaves the rule file holding the rule and every other file as it
/// was; a rule file that was there before is kept at the backup path, where that differs
/// from the rule's path.
pub proof fn lemma_udev_rule_installed(fs: FileTree, dest: Seq<char>, content: Seq<char>)
    requires
        backup_of(dest) != dest,
    ensures
        installs_rule(fs, dest, content),
{
    let plan = udev_rule_plan(false, dest, content, fs.contains_key(dest));
    if fs.contains_key(dest) {
        let fs_a = fs.insert(backup_of(dest), fs[dest]);
        lemma_run_steps_succeed(fs, plan, seq![fs, fs_a, fs_a.insert(dest, content)]);
    } else {
        lemma_run_steps_succeed(fs, plan, seq![fs, fs.insert(dest, content)]);
    }
}

/// Adding overlays to an existing environment file leaves it holding the updated text,
/// with its old text at the backup path, where that differs from the file's path.
pub proof fn lemma_dt_overlays_written(
    fs: FileTree,
    env_path: Seq<char>,
    new_overlays: Seq<Seq<char>>,
)
    requires
        fs.contains_key(env_path),
        backup_of(env_path) != env_path,
    ensures
        run_steps(fs, dt_overlays_plan(env_path, fs[env_path], new_overlays)) == Some(
            fs.insert(backup_of(env_path), fs[env_path]).insert(
                env_path,
                overlays_updated(fs[env_path], new_overlays),
            ),
        ),
{
    let plan = dt_overlays_plan(env_path, fs[env_path], new_overlays);
    let fs_a = fs.insert(backup_of(env_path), fs[env_path]);
    let done = fs_a.insert(env_path, overlays_updated(fs[env_path], new_overlays));
    lemma_run_steps_succeed(fs, plan, seq![fs, fs_a, done]);
}

} // verus!
