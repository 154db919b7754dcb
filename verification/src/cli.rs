//! The commands' own logic: the configuration that `init` writes, the hooks
//! that `install` writes, and how `run pre-push` reports its two outcomes.

use vstd::prelude::*;

use crate::paths::{join_path, joined};

verus! {

/// Writes an example hk configuration file.
pub struct Init {}

/// Installs the git hooks that the configuration defines.
pub struct Install {}

/// Runs the pre-push hook.
pub struct PrePush {
    /// Run on all files instead of the changed ones.
    pub all: bool,
}

/// The configuration text before the version.
pub open spec fn init_head() -> Seq<char> {
    "// amends \"package://hk.jdx.dev/hk@0.1.0#/hk.pkl\"\namends \"pkl/hk.pkl\"\nimport \"pkl/builtins.pkl\"\n\nmin_hk_version = \""@
}

/// The configuration text after the version.
pub open spec fn init_tail() -> Seq<char> {
    "\"\n\n// example git hooks are defined below\n//\n// pre_commit {\n//     // \"prelint\" here is simply a name to define the step\n//     [\"prelint\"] {\n//         // if a step has a \"run\" script it will execute that\n//         run = \"mise run prelint\"\n//         exclusive = true // ensures that the step runs in isolation\n//     }\n//     // everything from here to postlint is run in parallel\n//     [\"pkl\"] {\n//         glob = new { \"*.pkl\" }\n//         run = \"pkl eval {staged_files} >/dev/null\"\n//     }\n//     // predefined formatters+linters\n//     [\"cargo-check\"] = new builtins.CargoCheck {}\n//     [\"cargo-fmt\"] = new builtins.CargoFmt {}\n//     [\"eslint\"] = new builtins.Eslint {}\n//     [\"prettier\"] = new builtins.Prettier {\n//         glob = new { \"*.js\"; \"*.ts\" } // override the default globs\n//     }\n//     [\"postlint\"] {\n//         run = \"mise run postlint\"\n//         exclusive = true\n//     }\n// }\n//\n// // instead of pre-commit, you can instead define pre-push hooks\n// pre_push {\n//     [\"eslint\"] = new builtins.Eslint {}\n// }\n//\n// // TODO\n// commit_msg {\n// }\n//\n// // TODO\n// prepare_commit_msg {\n// }\n//\n// // TODO\n// update {\n// }\n"@
}

impl Init {
    /// The configuration file that `hk init` writes for hk version
    /// `version`: an example configuration whose minimum hk version is
    /// `version`.
    pub fn config_content(version: &str) -> (r: String)
        ensures
            r@ == init_head() + version@ + init_tail(),
    {
        let mut s = String::from_str("// amends \"package://hk.jdx.dev/hk@0.1.0#/hk.pkl\"\namends \"pkl/hk.pkl\"\nimport \"pkl/builtins.pkl\"\n\nmin_hk_version = \"");
        s.append(version);
        s.append("\"\n\n// example git hooks are defined below\n//\n// pre_commit {\n//     // \"prelint\" here is simply a name to define the step\n//     [\"prelint\"] {\n//         // if a step has a \"run\" script it will execute that\n//         run = \"mise run prelint\"\n//         exclusive = true // ensures that the step runs in isolation\n//     }\n//     // everything from here to postlint is run in parallel\n//     [\"pkl\"] {\n//         glob = new { \"*.pkl\" }\n//         run = \"pkl eval {staged_files} >/dev/null\"\n//     }\n//     // predefined formatters+linters\n//     [\"cargo-check\"] = new builtins.CargoCheck {}\n//     [\"cargo-fmt\"] = new builtins.CargoFmt {}\n//     [\"eslint\"] = new builtins.Eslint {}\n//     [\"prettier\"] = new builtins.Prettier {\n//         glob = new { \"*.js\"; \"*.ts\" } // override the default globs\n//     }\n//     [\"postlint\"] {\n//         run = \"mise run postlint\"\n//         exclusive = true\n//     }\n// }\n//\n// // instead of pre-commit, you can instead define pre-push hooks\n// pre_push {\n//     [\"eslint\"] = new builtins.Eslint {}\n// }\n//\n// // TODO\n// commit_msg {\n// }\n//\n// // TODO\n// prepare_commit_msg {\n// }\n//\n// // TODO\n// update {\n// }\n");
        s
    }
}

/// The hooks that `install` writes, in order: `pre-commit` when the
/// configuration has pre-commit steps, `pre-push` when it has pre-push steps.
pub open spec fn spec_hooks(has_pre_commit: bool, has_pre_push: bool) -> Seq<Seq<char>> {
    if has_pre_commit && has_pre_push {
        seq!["pre-commit"@, "pre-push"@]
    } else if has_pre_commit {
        seq!["pre-commit"@]
    } else if has_pre_push {
        seq!["pre-push"@]
    } else {
        Seq::empty()
    }
}

/// The script installed for `hook`: a shell script that hands the hook's
/// arguments to `hk run {hook}`.
pub open spec fn spec_hook_script(hook: Seq<char>) -> Seq<char> {
    "#!/bin/sh\nhk run "@ + hook + " \"$@\"\n"@
}

/// The directory that git reads hooks from.
pub open spec fn hooks_dir() -> Seq<char> {
    ".git/hooks"@
}

impl Install {
    /// The hooks to install (see [`spec_hooks`]).
    pub fn hooks(has_pre_commit: bool, has_pre_push: bool) -> (r: Vec<&'static str>)
        ensures
            r@.map_values(|h: &str| h@) == spec_hooks(has_pre_commit, has_pre_push),
    {
        let mut v: Vec<&'static str> = Vec::new();
        if has_pre_commit {
            v.push("pre-commit");
        }
        if has_pre_push {
            v.push("pre-push");
        }
        assert(v@.map_values(|h: &str| h@) =~= spec_hooks(has_pre_commit, has_pre_push));
        v
    }

    /// The script installed for `hook` (see [`spec_hook_script`]).
    pub fn hook_script(hook: &str) -> (r: String)
        ensures
            r@ == spec_hook_script(hook@),
    {
        let mut s = String::from_str("#!/bin/sh\nhk run ");
        s.append(hook);
        s.append(" \"$@\"\n");
        s
    }

    /// The file the script for `hook` is written to.
    pub fn hook_file(hook: &str) -> (r: String)
        ensures
            r@ == joined(hooks_dir(), hook@),
    {
        join_path(".git/hooks", hook)
    }

    /// The line printed once the script for `hook` is installed.
    pub fn installed_message(hook: &str) -> (r: String)
        ensures
            r@ == "Installed hk hook: .git/hooks/"@ + hook@,
    {
        let mut s = String::from_str("Installed hk hook: .git/hooks/");
        s.append(hook);
        s
    }
}

/// The outcome of `run pre-push` from the outcome of the hook and that of
/// putting the stash back: the hook's error when it failed, else the stash's
/// error; when both failed, the stash's error is only warned about.
pub open spec fn spec_merge_outcomes<E>(run: Result<(), E>, pop: Result<(), E>) -> (Result<(), E>, Option<E>) {
    match (run, pop) {
        (Ok(()), Ok(())) => (Ok(()), None),
        (Ok(()), Err(p)) => (Err(p), None),
        (Err(e), Ok(())) => (Err(e), None),
        (Err(e), Err(p)) => (Err(e), Some(p)),
    }
}

/// `run pre-push` succeeds exactly when both the hook and putting the stash
/// back succeed; a failed hook's error is the one reported, and the stash's
/// error is warned about only when both failed.
pub proof fn law_pre_push_outcome<E>(run: Result<(), E>, pop: Result<(), E>)
    ensures
        spec_merge_outcomes(run, pop).0 is Ok <==> (run is Ok && pop is Ok),
        run is Err ==> spec_merge_outcomes(run, pop).0 == run,
        spec_merge_outcomes(run, pop).1 is Some <==> (run is Err && pop is Err),
{
}

impl PrePush {
    /// The result of the command and the error to warn about, if any (see
    /// [`spec_merge_outcomes`]).
    pub fn merge_outcomes<E>(run: Result<(), E>, pop: Result<(), E>) -> (r: (Result<(), E>, Option<E>))
        ensures
            r == spec_merge_outcomes(run, pop),
    {
        match (run, pop) {
            (Ok(()), Ok(())) => (Ok(()), None),
            (Ok(()), Err(p)) => (Err(p), None),
            (Err(e), Ok(())) => (Err(e), None),
            (Err(e), Err(p)) => (Err(e), Some(p)),
        }
    }
}

} // verus!
