//! Reversible installation commands.
use vstd::prelude::*;
use vstd::string::*;
use crate::files::{
    backup_of, backup_path, backup_suffix, has_suffix, lemma_backup_differs,
    lemma_run_steps_succeed, plain_path, FileOp, FileOpView, FileStep, FileStepView, FileTree, OnFailure,
    OnFailureView, run_steps, steps_view,
};
use crate::sys::{udev_rule_plan, SysConfigurator};

verus! {

/// A change to the system that can be carried out and taken back. The caller carries
/// out the file steps that the command names, in order, and hands the outcome back.
pub trait Command {
    /// The steps that carry the command out, given whether its target exists now.
    fn execute_steps(&self, target_exists: bool) -> Vec<FileStep>;

    /// Takes note of how carrying the command out went, and reports it.
    fn execute(&mut self, outcome: Result<(), String>) -> Result<(), String>;

    /// The steps that take the command back, given whether the backup of its target
    /// exists now.
    fn rollback_steps(&self, backup_exists: bool) -> Vec<FileStep>;

    /// Takes note of how taking the command back went, and reports it.
    fn rollback(&mut self, outcome: Result<(), String>) -> Result<(), String>;
}

/// The context of the error reported when the backup cannot be copied back.
pub open spec fn restore_context() -> Seq<char> {
    "Rollback failed, system may be in unexpected state"@
}

/// The context of the error reported when the backup cannot be removed.
pub open spec fn purge_context() -> Seq<char> {
    "Could not purge backup artifact"@
}

/// The prefix of the error reported when the rule cannot be written.
pub open spec fn execute_error_prefix() -> Seq<char> {
    "Failed to configure udev rule safely: "@
}

/// The steps that take back a udev rule installation: none before it was carried out or
/// in simulation mode; where the backup exists, a copy of it back over the rule file and
/// its removal; otherwise the removal of the rule file, whose failure is ignored.
pub open spec fn rollback_plan(
    executed: bool,
    simulation_mode: bool,
    path: Seq<char>,
    backup_exists: bool,
) -> Seq<FileStepView> {
    if !executed || simulation_mode {
        seq![]
    } else if backup_exists {
        seq![
            FileStepView {
                op: FileOpView::Copy { from: backup_of(path), to: path },
                on_failure: OnFailureView::StopWith(restore_context()),
            },
            FileStepView {
                op: FileOpView::Remove { path: backup_of(path) },
                on_failure: OnFailureView::StopWith(purge_context()),
            },
        ]
    } else {
        seq![
            FileStepView {
                op: FileOpView::Remove { path: path },
                on_failure: OnFailureView::Ignore,
            },
        ]
    }
}

/// Installs a udev rule file, keeping a backup of the file it replaces.
pub struct InstallUdevRuleCommand {
    path: String,
    content: String,
    configurer: SysConfigurator,
    executed: bool,
    backup: String,
}

/// Installing `content` at `path` in a tree `fs` without a backup file, then taking it back,
/// gives `fs` again.
pub open spec fn install_then_rollback_restores(
    fs: FileTree,
    path: Seq<char>,
    content: Seq<char>,
) -> bool {
    !fs.contains_key(backup_of(path)) ==> (run_steps(
        fs,
        udev_rule_plan(false, path, content, fs.contains_key(path)),
    ) matches Some(done) && run_steps(
        done,
        rollback_plan(true, false, path, done.contains_key(backup_of(path))),
    ) == Some(fs))
}

impl InstallUdevRuleCommand {
    /// The backup path kept is that of the rule file.
    #[verifier::type_invariant]
    spec fn backup_kept(self) -> bool {
        self.backup@ == backup_of(self.path@)
    }

    /// A command that installs `content` as the udev rule at `path`, not yet carried out.
    /// For a rule file with an ordinary name not ending in `.bak`, installing it and taking
    /// it back restores every tree that held no backup file.
    pub fn new(path: String, content: String, simulation_mode: bool) -> (c: Self)
        ensures
            c.target() == path@,
            c.rule() == content@,
            c.simulated() == simulation_mode,
            !c.was_executed(),
            plain_path(path@) && !has_suffix(path@, backup_suffix()) ==> forall|fs: FileTree|
                #[trigger] install_then_rollback_restores(fs, path@, content@),
    {
        let backup = backup_path(path.as_str());
        proof {
            if plain_path(path@) && !has_suffix(path@, backup_suffix()) {
                lemma_backup_differs(path@);
                assert forall|fs: FileTree| #[trigger]
                    install_then_rollback_restores(fs, path@, content@) by {
                    if !fs.contains_key(backup_of(path@)) {
                        lemma_execute_then_rollback_restores(fs, path@, content@);
                    }
                }
            }
        }
        InstallUdevRuleCommand {
            path,
            content,
            configurer: SysConfigurator::new(simulation_mode),
            executed: false,
            backup,
        }
    }

    /// The command has been carried out and not taken back since.
    pub closed spec fn was_executed(&self) -> bool {
        self.executed
    }

    /// The path of the rule file.
    pub closed spec fn target(&self) -> Seq<char> {
        self.path@
    }

    /// The contents of the rule.
    pub closed spec fn rule(&self) -> Seq<char> {
        self.content@
    }

    /// Whether the command only pretends to write files.
    pub closed spec fn simulated(&self) -> bool {
        self.configurer.simulation_mode
    }

    /// The path of the rule file.
    pub fn path(&self) -> (r: &String)
        ensures
            r@ == self.target(),
    {
        &self.path
    }

    /// The contents of the rule.
    pub fn content(&self) -> (r: &String)
        ensures
            r@ == self.rule(),
    {
        &self.content
    }

    /// The configurator that writes the rule.
    pub fn configurer(&self) -> (r: &SysConfigurator)
        ensures
            r.simulation_mode == self.simulated(),
    {
        &self.configurer
    }

    /// Whether the command has been carried out and not taken back since.
    pub fn is_executed(&self) -> (r: bool)
        ensures
            r == self.was_executed(),
    {
        self.executed
    }

    /// The path of the backup of the rule file.
    pub fn backup_path(&self) -> (r: String)
        ensures
            r@ == backup_of(self.target()),
    {
        proof {
            use_type_invariant(self);
        }
        self.backup.clone()
    }
}

impl Command for InstallUdevRuleCommand {
    /// The steps that install the rule, as `SysConfigurator::udev_rule_steps` gives them.
    fn execute_steps(&self, target_exists: bool) -> (r: Vec<FileStep>)
        ensures
            steps_view(r@) == udev_rule_plan(
                self.simulated(),
                self.target(),
                self.rule(),
                target_exists,
            ),
    {
        self.configurer.udev_rule_steps(self.path.as_str(), self.content.as_str(), target_exists)
    }

    /// On success the command counts as carried out; a failure is reported after
    /// `execute_error_prefix` and changes nothing.
    fn execute(&mut self, outcome: Result<(), String>) -> (r: Result<(), String>)
        ensures
            final(self).target() == old(self).target(),
            final(self).rule() == old(self).rule(),
            final(self).simulated() == old(self).simulated(),
            match outcome {
                Ok(_) => r is Ok && final(self).was_executed(),
                Err(e) => r matches Err(m) && m@ == execute_error_prefix() + e@
                    && final(self).was_executed() == old(self).was_executed(),
            },
    {
        proof {
            use_type_invariant(&*self);
        }
        match outcome {
            Ok(()) => {
                self.executed = true;
                Ok(())
            },
            Err(e) => Err(String::from_str("Failed to configure udev rule safely: ").concat(
                e.as_str(),
            )),
        }
    }

    /// The steps of `rollback_plan` for this command.
    fn rollback_steps(&self, backup_exists: bool) -> (r: Vec<FileStep>)
        ensures
            steps_view(r@) == rollback_plan(
                self.was_executed(),
                self.simulated(),
                self.target(),
                backup_exists,
            ),
    {
        let mut r: Vec<FileStep> = Vec::new();
        if self.executed && !self.configurer.simulation_mode {
            if backup_exists {
                let backup = self.backup_path();
                r.push(
                    FileStep {
                        op: FileOp::Copy { from: backup.clone(), to: self.path.clone() },
                        on_failure: OnFailure::StopWith(
                            String::from_str("Rollback failed, system may be in unexpected state"),
                        ),
                    },
                );
                r.push(
                    FileStep {
                        op: FileOp::Remove { path: backup },
                        on_failure: OnFailure::StopWith(
                            String::from_str("Could not purge backup artifact"),
                        ),
                    },
                );
            } else {
                r.push(
                    FileStep {
                        op: FileOp::Remove { path: self.path.clone() },
                        on_failure: OnFailure::Ignore,
                    },
                );
            }
        }
        assert(steps_view(r@) =~= rollback_plan(
            self.was_executed(),
            self.configurer.simulation_mode,
            self.path@,
            backup_exists,
        ));
        r
    }

    /// After steps that all went well the command counts as taken back; a failure is
    /// reported as it came and changes nothing.
    fn rollback(&mut self, outcome: Result<(), String>) -> (r: Result<(), String>)
        ensures
            final(self).target() == old(self).target(),
            final(self).rule() == old(self).rule(),
            final(self).simulated() == old(self).simulated(),
            r == outcome,
            outcome is Ok ==> !final(self).was_executed(),
            outcome is Err ==> final(self).was_executed() == old(self).was_executed(),
    {
        proof {
            use_type_invariant(&*self);
        }
        if outcome.is_ok() {
            self.executed = false;
        }
        outcome
    }
}

/// Installing a udev rule and taking it back leaves the file tree as it was, where no
/// backup file was there before and the backup path differs from the rule's path.
pub proof fn lemma_execute_then_rollback_restores(
    fs: FileTree,
    path: Seq<char>,
    content: Seq<char>,
)
    requires
        backup_of(path) != path,
        !fs.contains_key(backup_of(path)),
    ensures
        run_steps(fs, udev_rule_plan(false, path, content, fs.contains_key(path))) matches Some(
            done,
        ) && run_steps(done, rollback_plan(true, false, path, done.contains_key(backup_of(path))))
            == Some(fs),
{
    let b = backup_of(path);
    let plan = udev_rule_plan(false, path, content, fs.contains_key(path));
    if fs.contains_key(path) {
        let fs_a = fs.insert(b, fs[path]);
        let done = fs_a.insert(path, content);
        lemma_run_steps_succeed(fs, plan, seq![fs, fs_a, done]);
        let back = rollback_plan(true, false, path, done.contains_key(b));
        let fs_c = done.insert(path, done[b]);
        lemma_run_steps_succeed(done, back, seq![done, fs_c, fs_c.remove(b)]);
        assert(fs_c.remove(b) =~= fs);
    } else {
        let done = fs.insert(path, content);
        lemma_run_steps_succeed(fs, plan, seq![fs, done]);
        let back = rollback_plan(true, false, path, done.contains_key(b));
        lemma_run_steps_succeed(done, back, seq![done, done.remove(path)]);
        assert(done.remove(path) =~= fs);
    }
}

/// In simulation mode neither installing a udev rule nor taking it back touches a file.
pub proof fn lemma_simulation_touches_nothing(
    fs: FileTree,
    path: Seq<char>,
    content: Seq<char>,
    target_exists: bool,
    executed: bool,
    backup_exists: bool,
)
    ensures
        run_steps(fs, udev_rule_plan(true, path, content, target_exists)) == Some(fs),
        run_steps(fs, rollback_plan(executed, true, path, backup_exists)) == Some(fs),
{
}

/// Taking back a command that is not carried out (or was taken back already) touches no
/// file.
pub proof fn lemma_rollback_of_unexecuted_touches_nothing(
    fs: FileTree,
    simulation_mode: bool,
    path: Seq<char>,
    backup_exists: bool,
)
    ensures
        run_steps(fs, rollback_plan(false, simulation_mode, path, backup_exists)) == Some(fs),
{
}

} // verus!
