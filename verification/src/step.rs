//! Steps of a hook: which command a step runs, on which files, and what it
//! reports when it is done.

use vstd::prelude::*;

use crate::text::{decimal, decimal_string};

verus! {

/// Paths that a step reads and writes, for locking.
#[derive(Debug, Clone)]
pub struct FileLocks {
    pub read: Option<String>,
    pub write: Option<String>,
}

/// One step of a hook, as the configuration file describes it.
#[derive(Debug, Clone)]
pub struct Step {
    /// The step's type (the configuration's `type` key).
    pub step_type: Option<String>,
    pub name: String,
    /// Globs that select the files a step runs on; no globs means all files.
    pub glob: Option<Vec<String>>,
    /// Command run on the selected files.
    pub run: Option<String>,
    /// Command that fixes the selected files.
    pub fix: Option<String>,
    /// Command run on all files at once.
    pub run_all: Option<String>,
    /// Command that fixes all files at once.
    pub fix_all: Option<String>,
    pub root: Option<String>,
    pub exclusive: bool,
    pub file_locks: Option<FileLocks>,
    /// Globs of files that are staged after the command ran.
    pub stage: Option<Vec<String>>,
}

/// Kinds of files a step can ask for.
#[derive(Debug, Clone, PartialEq, Eq, Structural)]
pub enum FileKind {
    Text,
    Binary,
    Executable,
    NotExecutable,
    Symlink,
    NotSymlink,
}

/// Which of its four commands a step runs.
#[derive(Debug, Clone, Copy, PartialEq, Eq, Structural)]
pub enum RunType {
    Run,
    Fix,
    RunAll,
    FixAll,
}

/// What a step runs against: the files, and whether they are all files of the
/// repository.
pub struct StepContext {
    pub all_files: bool,
    pub files: Vec<String>,
}

/// What a step does once the files that its globs select are known.
pub enum StepPlan {
    /// The step has globs and none of the files match them: it is skipped.
    NoMatches,
    /// The command that the run type picks is not set: the step only warns.
    NoCommand { run_type: RunType },
    /// Run `command` (a template still to be rendered) on `files`.
    Execute { run_type: RunType, command: String, files: Vec<String> },
}

/// How far a step that runs a command has got.
#[derive(Debug, Clone, Copy, PartialEq, Eq, Structural)]
pub enum StepPhase {
    /// The command is chosen but has not run.
    Planned,
    /// The command ran and succeeded.
    CommandRan,
    /// The files matching the stage patterns were staged.
    Staged,
}

/// What a step that runs a command does next.
#[derive(Debug, PartialEq, Eq)]
pub enum StepAction {
    /// Run the command.
    RunCommand,
    /// Stage the files that match these patterns (still to be rendered).
    Stage { patterns: Vec<String> },
    /// Report the step as finished with this message.
    Finish { message: String },
}

/// `r` is the action that follows `phase` for `step`, which ran `run_type`
/// on `n` files: the command runs first; after it, the stage patterns are
/// staged when the step has any; the step finishes only after that.
pub open spec fn is_next_action(step: Step, phase: StepPhase, run_type: RunType, n: nat, r: StepAction) -> bool {
    match phase {
        StepPhase::Planned => r == StepAction::RunCommand,
        StepPhase::CommandRan => match step.stage {
            Some(p) => r matches StepAction::Stage { patterns } && patterns@ == p@,
            None => r matches StepAction::Finish { message } && message@ == finish_text(run_type, n),
        },
        StepPhase::Staged => r matches StepAction::Finish { message } && message@ == finish_text(
            run_type,
            n,
        ),
    }
}

/// The run type of a step. A fix command is chosen when the step has `fix`,
/// or when fixing is asked for and the step has `fix_all`; the whole-repository
/// variant is chosen when the per-file command is missing, or when all files
/// are the target and the whole-repository command exists.
pub open spec fn spec_run_type(step: Step, fix_env: bool, all_files: bool) -> RunType {
    if (fix_env && step.fix_all is Some) || step.fix is Some {
        if step.fix is None || (all_files && step.fix_all is Some) {
            RunType::FixAll
        } else {
            RunType::Fix
        }
    } else if step.run is None || (all_files && step.run_all is Some) {
        RunType::RunAll
    } else {
        RunType::Run
    }
}

/// The command that a run type selects.
pub open spec fn spec_command(step: Step, run_type: RunType) -> Option<String> {
    match run_type {
        RunType::Run => step.run,
        RunType::Fix => step.fix,
        RunType::RunAll => step.run_all,
        RunType::FixAll => step.fix_all,
    }
}

/// The files a step runs on: the glob matches when it has globs, else all the
/// context's files.
pub open spec fn spec_step_files(step: Step, ctx_files: Seq<String>, matches: Seq<String>) -> Seq<
    String,
> {
    if step.glob is Some {
        matches
    } else {
        ctx_files
    }
}

/// The message shown when a step finishes: "done" for whole-repository runs
/// and runs on no files, else the number of files, as in "1 file", "3 files".
pub open spec fn finish_text(run_type: RunType, n: nat) -> Seq<char> {
    if run_type == RunType::RunAll || run_type == RunType::FixAll || n == 0 {
        "done"@
    } else if n == 1 {
        decimal(n) + " file"@
    } else {
        decimal(n) + " files"@
    }
}

/// The words of `list` with `sep` between each two of them.
pub open spec fn joined_words(list: Seq<Seq<char>>, sep: Seq<char>) -> Seq<char>
    decreases list.len(),
{
    if list.len() == 0 {
        Seq::empty()
    } else if list.len() == 1 {
        list[0]
    } else {
        joined_words(list.drop_last(), sep) + sep + list.last()
    }
}

/// The views of a list of strings.
pub open spec fn string_views(list: Seq<String>) -> Seq<Seq<char>> {
    list.map_values(|s: String| s@)
}

fn clone_opt(o: &Option<String>) -> (r: Option<String>)
    ensures
        r == *o,
{
    match o {
        Some(s) => Some(s.clone()),
        None => None,
    }
}

fn clone_strings(v: &Vec<String>) -> (r: Vec<String>)
    ensures
        r@ == v@,
{
    let mut out: Vec<String> = Vec::new();
    let mut i: usize = 0;
    while i < v.len()
        invariant
            i <= v.len(),
            out@ == v@.subrange(0, i as int),
        decreases v.len() - i,
    {
        out.push(v[i].clone());
        i += 1;
        assert(out@ =~= v@.subrange(0, i as int));
    }
    assert(v@.subrange(0, v.len() as int) =~= v@);
    out
}

/// A step has no command to run exactly when it has neither `fix` nor
/// `run` nor `run_all`, and has no `fix_all` or fixing was not asked for;
/// every run type that is chosen otherwise names a command the step has.
pub proof fn law_command_absent(step: Step, fix_env: bool, all_files: bool)
    ensures
        spec_command(step, spec_run_type(step, fix_env, all_files)) is None <==> (step.fix is None
            && !(fix_env && step.fix_all is Some) && step.run is None && step.run_all is None),
{
}

/// On all files, a step with a `run_all` command and nothing to fix runs
/// `run_all`; a step with `fix` fixes, per file unless all files are the
/// target and it has `fix_all`.
pub proof fn law_all_files_prefers_whole_repository(step: Step, fix_env: bool)
    ensures
        (step.run_all is Some && step.fix is None && !(fix_env && step.fix_all is Some))
            ==> spec_run_type(step, fix_env, true) == RunType::RunAll,
        (step.fix is Some && step.fix_all is Some) ==> spec_run_type(step, fix_env, true)
            == RunType::FixAll,
        (step.fix is Some) ==> spec_run_type(step, fix_env, false) == RunType::Fix,
{
}

/// A step never stages before its command ran, and never finishes before its
/// command ran and, when it has stage patterns, before they were staged.
pub proof fn law_step_order(step: Step, phase: StepPhase, run_type: RunType, n: nat, r: StepAction)
    requires
        is_next_action(step, phase, run_type, n, r),
    ensures
        r is Stage ==> phase == StepPhase::CommandRan,
        r is Finish ==> phase != StepPhase::Planned,
        (r is Finish && step.stage is Some) ==> phase == StepPhase::Staged,
        phase == StepPhase::Planned <==> r is RunCommand,
{
}

/// When fixing is asked for and the step has a `fix_all` command, the step
/// fixes (with `fix` per file, or `fix_all`), whatever checking commands it
/// also has; without a `fix` command it runs `fix_all`. A step fixes exactly
/// when it has `fix`, or fixing is asked for and it has `fix_all`.
pub proof fn law_fix_requested_fixes(step: Step, fix_env: bool, all_files: bool)
    ensures
        (fix_env && step.fix_all is Some) ==> (spec_run_type(step, fix_env, all_files)
            == RunType::Fix || spec_run_type(step, fix_env, all_files) == RunType::FixAll),
        (fix_env && step.fix_all is Some && step.fix is None) ==> spec_run_type(
            step,
            fix_env,
            all_files,
        ) == RunType::FixAll,
        (spec_run_type(step, fix_env, all_files) == RunType::Fix || spec_run_type(
            step,
            fix_env,
            all_files,
        ) == RunType::FixAll) <==> (step.fix is Some || (fix_env && step.fix_all is Some)),
        spec_run_type(step, fix_env, all_files) == RunType::Fix ==> step.fix is Some,
        spec_run_type(step, fix_env, all_files) == RunType::FixAll ==> step.fix_all is Some,
        spec_run_type(step, fix_env, all_files) == RunType::Run ==> step.run is Some,
{
}

/// A step with globs runs on every file that matched, in the order they
/// matched, and nothing else; a step without globs runs on every file of the
/// context.
pub proof fn law_step_files(step: Step, ctx_files: Seq<String>, matches: Seq<String>)
    ensures
        step.glob is Some ==> spec_step_files(step, ctx_files, matches).len() == matches.len()
            && forall|i: int|
            0 <= i < matches.len() ==> #[trigger] spec_step_files(step, ctx_files, matches)[i]
                == matches[i],
        step.glob is None ==> spec_step_files(step, ctx_files, matches).len() == ctx_files.len()
            && forall|i: int|
            0 <= i < ctx_files.len() ==> #[trigger] spec_step_files(step, ctx_files, matches)[i]
                == ctx_files[i],
{
}

/// A step that ran on all files at once, or on no files, finishes with
/// `done`; a per-file run on files names their number and ends in `files`
/// exactly when there is more than one.
pub proof fn law_finish_text(run_type: RunType, n: nat)
    ensures
        (run_type == RunType::RunAll || run_type == RunType::FixAll || n == 0) ==> finish_text(
            run_type,
            n,
        ) == "done"@,
        ((run_type == RunType::Run || run_type == RunType::Fix) && n > 0) ==> finish_text(
            run_type,
            n,
        ).subrange(0, decimal(n).len() as int) == decimal(n),
        ((run_type == RunType::Run || run_type == RunType::Fix) && n > 0) ==> (finish_text(
            run_type,
            n,
        ).last() == 's' <==> n > 1),
{
    reveal_strlit(" file");
    reveal_strlit(" files");
    if (run_type == RunType::Run || run_type == RunType::Fix) && n > 0 {
        let t = finish_text(run_type, n);
        assert(t.subrange(0, decimal(n).len() as int) =~= decimal(n));
    }
}

impl Step {
    /// The run type of this step (see [`spec_run_type`]); `fix_env` says
    /// whether fixing was asked for in the environment.
    pub fn run_type(&self, fix_env: bool, all_files: bool) -> (r: RunType)
        ensures
            r == spec_run_type(*self, fix_env, all_files),
            (r == RunType::Fix || r == RunType::FixAll) <==> (self.fix is Some || (fix_env
                && self.fix_all is Some)),
            (fix_env && self.fix_all is Some && self.fix is None) ==> r == RunType::FixAll,
            r == RunType::Fix <==> (self.fix is Some && !(all_files && self.fix_all is Some)),
            r == RunType::Run <==> (self.fix is None && !(fix_env && self.fix_all is Some)
                && self.run is Some && !(all_files && self.run_all is Some)),
            r == RunType::FixAll ==> self.fix_all is Some,
    {
        if (fix_env && self.fix_all.is_some()) || self.fix.is_some() {
            if self.fix.is_none() || (all_files && self.fix_all.is_some()) {
                RunType::FixAll
            } else {
                RunType::Fix
            }
        } else if self.run.is_none() || (all_files && self.run_all.is_some()) {
            RunType::RunAll
        } else {
            RunType::Run
        }
    }

    /// The command that `run_type` selects, if the step has it.
    pub fn command(&self, run_type: RunType) -> (r: Option<String>)
        ensures
            r == spec_command(*self, run_type),
    {
        match run_type {
            RunType::Run => clone_opt(&self.run),
            RunType::Fix => clone_opt(&self.fix),
            RunType::RunAll => clone_opt(&self.run_all),
            RunType::FixAll => clone_opt(&self.fix_all),
        }
    }

    /// What the step does, given the files that its globs matched among the
    /// context's files (`matches` is read only when the step has globs).
    pub fn plan(&self, ctx: &StepContext, fix_env: bool, matches: &Vec<String>) -> (r: StepPlan)
        ensures
            (self.glob is Some && matches@.len() == 0) ==> r is NoMatches,
            !(self.glob is Some && matches@.len() == 0) ==> {
                let rt = spec_run_type(*self, fix_env, ctx.all_files);
                match spec_command(*self, rt) {
                    None => r == StepPlan::NoCommand { run_type: rt },
                    Some(c) => r matches StepPlan::Execute { run_type, command, files }
                        && run_type == rt && command == c && files@ == spec_step_files(
                        *self,
                        ctx.files@,
                        matches@,
                    ),
                }
            },
            r matches StepPlan::Execute { files, .. } ==> (self.glob is Some ==> files@
                == matches@) && (self.glob is None ==> files@ == ctx.files@),
            r is NoMatches <==> (self.glob is Some && matches@.len() == 0),
    {
        if self.glob.is_some() && matches.len() == 0 {
            return StepPlan::NoMatches;
        }
        let run_type = self.run_type(fix_env, ctx.all_files);
        match self.command(run_type) {
            None => StepPlan::NoCommand { run_type },
            Some(command) => {
                let files = if self.glob.is_some() {
                    clone_strings(matches)
                } else {
                    clone_strings(&ctx.files)
                };
                StepPlan::Execute { run_type, command, files }
            },
        }
    }

    /// The patterns of files to stage after the command ran, when the step
    /// stages anything: `None` when the step has no `stage`.
    pub fn stage_patterns(&self) -> (r: Option<Vec<String>>)
        ensures
            match self.stage {
                Some(v) => r matches Some(p) && p@ == v@,
                None => r is None,
            },
    {
        match &self.stage {
            Some(v) => Some(clone_strings(v)),
            None => None,
        }
    }

    /// The action that follows `phase` for this step, which ran `run_type`
    /// on `n` files (see [`is_next_action`]).
    pub fn next_action(&self, phase: StepPhase, run_type: RunType, n: usize) -> (r: StepAction)
        ensures
            is_next_action(*self, phase, run_type, n as nat, r),
    {
        match phase {
            StepPhase::Planned => StepAction::RunCommand,
            StepPhase::CommandRan => match self.stage_patterns() {
                Some(patterns) => StepAction::Stage { patterns },
                None => StepAction::Finish { message: finish_message(run_type, n) },
            },
            StepPhase::Staged => StepAction::Finish { message: finish_message(run_type, n) },
        }
    }

    /// The step as it is shown to the user: its name.
    pub fn to_string(&self) -> (r: String)
        ensures
            r@ == self.name@,
    {
        self.name.clone()
    }
}

/// The message shown when a step that ran `run_type` on `n` files finishes.
pub fn finish_message(run_type: RunType, n: usize) -> (r: String)
    ensures
        r@ == finish_text(run_type, n as nat),
{
    proof {
        reveal_strlit("done");
        reveal_strlit(" file");
        reveal_strlit(" files");
    }
    if run_type == RunType::RunAll || run_type == RunType::FixAll || n == 0 {
        String::from_str("done")
    } else if n == 1 {
        let mut s = decimal_string(n);
        s.append(" file");
        s
    } else {
        let mut s = decimal_string(n);
        s.append(" files");
        s
    }
}

/// The files handed to `git add` once the stage patterns matched `matched`:
/// nothing is added when nothing matched.
pub fn files_to_stage(matched: Vec<String>) -> (r: Option<Vec<String>>)
    ensures
        matched@.len() == 0 ==> r is None,
        matched@.len() > 0 ==> r == Some(matched),
{
    if matched.len() == 0 {
        None
    } else {
        Some(matched)
    }
}

/// The message shown while the files matching `stage` are staged:
/// "staging " followed by the patterns, separated by spaces.
pub fn staging_message(stage: &Vec<String>) -> (r: String)
    ensures
        r@ == "staging "@ + joined_words(string_views(stage@), " "@),
{
    let mut out = String::from_str("staging ");
    let ghost head = out@;
    let mut i: usize = 0;
    while i < stage.len()
        invariant
            i <= stage.len(),
            head == "staging "@,
            out@ == head + joined_words(string_views(stage@.subrange(0, i as int)), " "@),
        decreases stage.len() - i,
    {
        let ghost prev = stage@.subrange(0, i as int);
        let ghost next = stage@.subrange(0, i + 1);
        assert(string_views(next).drop_last() =~= string_views(prev));
        if i > 0 {
            out.append(" ");
        }
        out.append(stage[i].as_str());
        i += 1;
        proof {
            if i == 1 {
                assert(string_views(next) =~= seq![stage@[0]@]);
            }
        }
    }
    assert(stage@.subrange(0, stage.len() as int) =~= stage@);
    out
}

} // verus!
