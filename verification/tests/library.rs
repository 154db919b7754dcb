use hk::cli::{Init, Install, PrePush};
use hk::env::{
    hk_cache_dir, hk_log, hk_log_file, hk_log_file_level, hk_state_dir, is_true_text, var_log_level,
    var_path, var_true,
};
use hk::git::{is_merge_message, stash_enabled, tree_entry_path, GitState, StashAction, StashEvent};
use hk::level::{level_passes, max_filter, Level, LevelFilter};
use hk::logger::{
    file_log_line, level_label, render_plan, thread_id, trace_meta, Logger, RenderPlan, Style,
};
use hk::paths::join_path;
use hk::settings::Settings;
use hk::step::{
    files_to_stage, finish_message, staging_message, RunType, Step, StepAction, StepContext,
    StepPhase, StepPlan,
};
use hk::text::{contains_str, decimal_string, replace_str, str_eq};

fn s(x: &str) -> String {
    x.to_string()
}

fn step(run: Option<&str>, fix: Option<&str>, run_all: Option<&str>, fix_all: Option<&str>) -> Step {
    Step {
        step_type: None,
        name: s("eslint"),
        glob: None,
        run: run.map(s),
        fix: fix.map(s),
        run_all: run_all.map(s),
        fix_all: fix_all.map(s),
        root: None,
        exclusive: false,
        file_locks: None,
        stage: None,
    }
}

// ---- text ----

#[test]
fn replace_str_replaces_every_occurrence() {
    assert_eq!(replace_str("a-b-c", "-", "+"), "a+b+c");
    assert_eq!(replace_str("aaa", "aa", "b"), "ba");
    assert_eq!(replace_str("abc", "", "x"), "xaxbxcx");
    assert_eq!(replace_str("", "", "x"), "x");
    assert_eq!(replace_str("héllo wörld", "ö", "o"), "héllo world");
    assert_eq!(replace_str("nothing", "zz", "y"), "nothing");
}

#[test]
fn contains_str_finds_substrings() {
    assert!(contains_str("/home/u/.cargo/notify-6.0/src/lib.rs", "/notify-"));
    assert!(!contains_str("/home/u/src/lib.rs", "/notify-"));
    assert!(contains_str("abc", ""));
    assert!(!contains_str("", "a"));
    assert!(contains_str("abc", "abc"));
}

#[test]
fn str_eq_compares_characters() {
    assert!(str_eq("true", "true"));
    assert!(!str_eq("true", "tru"));
    assert!(!str_eq("True", "true"));
}

#[test]
fn decimal_string_writes_numbers() {
    assert_eq!(decimal_string(0), "0");
    assert_eq!(decimal_string(7), "7");
    assert_eq!(decimal_string(10), "10");
    assert_eq!(decimal_string(12345), "12345");
    assert_eq!(decimal_string(usize::MAX), usize::MAX.to_string());
}

// ---- paths ----

#[test]
fn join_path_joins_like_path_join() {
    assert_eq!(join_path("/tmp", "file.bk"), "/tmp/file.bk");
    assert_eq!(join_path("/tmp/", "file.bk"), "/tmp/file.bk");
    assert_eq!(join_path("/tmp", "/etc"), "/etc");
    assert_eq!(join_path("", "a"), "a");
    assert_eq!(join_path("a", ""), "a/");
    assert_eq!(
        join_path("src", "a.rs"),
        std::path::Path::new("src").join("a.rs").to_str().unwrap()
    );
}

// ---- env ----

#[test]
fn var_path_keeps_the_value() {
    assert_eq!(var_path(Some(s("/x/y"))), Some(s("/x/y")));
    assert_eq!(var_path(None), None);
}

#[test]
fn var_log_level_parses_names_in_any_case() {
    assert_eq!(var_log_level(Some(s("debug"))), Some(LevelFilter::Debug));
    assert_eq!(var_log_level(Some(s("TRACE"))), Some(LevelFilter::Trace));
    assert_eq!(var_log_level(Some(s("Warn"))), Some(LevelFilter::Warn));
    assert_eq!(var_log_level(Some(s("off"))), Some(LevelFilter::Off));
    assert_eq!(var_log_level(Some(s("error"))), Some(LevelFilter::Error));
    assert_eq!(var_log_level(Some(s("info"))), Some(LevelFilter::Info));
    assert_eq!(var_log_level(Some(s("verbose"))), None);
    assert_eq!(var_log_level(Some(s(""))), None);
    assert_eq!(var_log_level(None), None);
}

#[test]
fn var_true_accepts_true_and_one() {
    assert!(var_true(Some(s("true"))));
    assert!(var_true(Some(s("TRUE"))));
    assert!(var_true(Some(s("True"))));
    assert!(var_true(Some(s("1"))));
    assert!(!var_true(Some(s("yes"))));
    assert!(!var_true(Some(s("0"))));
    assert!(!var_true(Some(s(""))));
    assert!(!var_true(None));
}

#[test]
fn state_dir_defaults() {
    assert_eq!(hk_state_dir(Some(s("/override")), Some(s("/st")), Some(s("/home/u"))), "/override");
    assert_eq!(hk_state_dir(None, Some(s("/st")), Some(s("/home/u"))), "/st/hk");
    assert_eq!(hk_state_dir(None, None, Some(s("/home/u"))), "/home/u/.local/state/hk");
    assert_eq!(hk_state_dir(None, None, None), ".local/state/hk");
}

#[test]
fn cache_dir_defaults() {
    assert_eq!(hk_cache_dir(Some(s("/c")), None, None), "/c");
    assert_eq!(hk_cache_dir(None, Some(s("/cache")), None), "/cache/hk");
    assert_eq!(hk_cache_dir(None, None, Some(s("/home/u"))), "/home/u/.cache/hk");
}

#[test]
fn log_file_and_levels() {
    assert_eq!(hk_log_file(None, "/st/hk"), "/st/hk/hk.log");
    assert_eq!(hk_log_file(Some(s("/tmp/x.log")), "/st/hk"), "/tmp/x.log");
    assert_eq!(hk_log(None), LevelFilter::Info);
    assert_eq!(hk_log(Some(s("bogus"))), LevelFilter::Info);
    assert_eq!(hk_log(Some(s("trace"))), LevelFilter::Trace);
    assert_eq!(hk_log_file_level(None, LevelFilter::Warn), LevelFilter::Warn);
    assert_eq!(hk_log_file_level(Some(s("debug")), LevelFilter::Warn), LevelFilter::Debug);
}

// ---- levels and logger ----

#[test]
fn levels_are_ordered_as_in_log() {
    assert!(level_passes(Level::Error, LevelFilter::Error));
    assert!(!level_passes(Level::Warn, LevelFilter::Error));
    assert!(level_passes(Level::Info, LevelFilter::Trace));
    assert!(!level_passes(Level::Error, LevelFilter::Off));
    assert_eq!(max_filter(LevelFilter::Info, LevelFilter::Debug), LevelFilter::Debug);
    assert_eq!(max_filter(LevelFilter::Trace, LevelFilter::Off), LevelFilter::Trace);
}

#[test]
fn logger_takes_what_either_sink_takes() {
    let logger = Logger::new(LevelFilter::Warn, LevelFilter::Debug);
    assert_eq!(logger.level(), LevelFilter::Debug);
    assert_eq!(logger.term_level(), LevelFilter::Warn);
    assert_eq!(logger.file_level(), LevelFilter::Debug);
    assert!(logger.enabled(Level::Debug));
    assert!(!logger.enabled(Level::Trace));
    let sinks = logger.sinks(Level::Info, true);
    assert!(sinks.file);
    assert!(!sinks.terminal);
    let sinks = logger.sinks(Level::Error, false);
    assert!(!sinks.file);
    assert!(sinks.terminal);
}

#[test]
fn render_plan_layouts() {
    assert_eq!(render_plan(LevelFilter::Off, Level::Error, None), RenderPlan::Silent);
    assert_eq!(render_plan(LevelFilter::Debug, Level::Info, None), RenderPlan::Leveled);
    assert_eq!(
        render_plan(LevelFilter::Info, Level::Info, None),
        RenderPlan::Tagged { tag_style: Style::Dim, show_level: false }
    );
    assert_eq!(
        render_plan(LevelFilter::Warn, Level::Error, None),
        RenderPlan::Tagged { tag_style: Style::Red, show_level: true }
    );
    assert_eq!(
        render_plan(LevelFilter::Error, Level::Warn, None),
        RenderPlan::Tagged { tag_style: Style::Yellow, show_level: true }
    );
    assert_eq!(
        render_plan(LevelFilter::Trace, Level::Debug, None),
        RenderPlan::Detailed { file: s("<unknown>") }
    );
    assert_eq!(
        render_plan(LevelFilter::Trace, Level::Trace, Some("src/main.rs")),
        RenderPlan::Detailed { file: s("src/main.rs") }
    );
    assert_eq!(
        render_plan(LevelFilter::Trace, Level::Trace, Some("/r/notify-6.1/src/lib.rs")),
        RenderPlan::Silent
    );
    assert_eq!(
        render_plan(LevelFilter::Trace, Level::Debug, Some("/r/notify-6.1/src/lib.rs")),
        RenderPlan::Detailed { file: s("/r/notify-6.1/src/lib.rs") }
    );
}

#[test]
fn level_labels() {
    assert_eq!(level_label(Level::Error), (s("ERROR"), Style::Red));
    assert_eq!(level_label(Level::Warn), (s("WARN "), Style::Yellow));
    assert_eq!(level_label(Level::Info), (s("INFO "), Style::Cyan));
    assert_eq!(level_label(Level::Debug), (s("DEBUG"), Style::Magenta));
    assert_eq!(level_label(Level::Trace), (s("TRACE"), Style::Dim));
}

#[test]
fn trace_meta_layout() {
    assert_eq!(trace_meta("ThreadId(7)", "src/main.rs", Some(42)), " 7 [src/main.rs:42]");
    assert_eq!(trace_meta("ThreadId(12)", "a.rs", None), "12 [a.rs:0]");
    assert_eq!(trace_meta("ThreadId(123)", "b.rs", Some(1)), "123 [b.rs:1]");
}

#[test]
fn true_texts() {
    assert!(is_true_text("true"));
    assert!(is_true_text("1"));
    assert!(!is_true_text("TRUE"));
    assert!(!is_true_text("yes"));
    assert!(!is_true_text(""));
}

#[test]
fn staging_decisions() {
    let mut st = step(Some("fmt"), None, None, None);
    assert_eq!(st.stage_patterns(), None);
    st.stage = Some(vec![s("*.rs")]);
    assert_eq!(st.stage_patterns(), Some(vec![s("*.rs")]));
    assert_eq!(files_to_stage(vec![]), None);
    assert_eq!(files_to_stage(vec![s("a.rs")]), Some(vec![s("a.rs")]));
}

#[test]
fn thread_id_takes_the_number() {
    assert_eq!(thread_id("ThreadId(7)"), "7");
    assert_eq!(thread_id("ThreadId(123)"), "123");
    assert_eq!(thread_id("ThreadId(4)x)"), "4x");
}

#[test]
fn file_log_line_strips_escape_codes() {
    assert_eq!(
        file_log_line("2024-01-01 00:00:00", "\u{1b}[31mERROR\u{1b}[0m", "boom"),
        "2024-01-01 00:00:00 ERROR boom"
    );
    assert_eq!(file_log_line("t", "INFO ", "plain"), "t INFO  plain");
}

// ---- settings ----

#[test]
fn settings_read_back_jobs() {
    let mut settings = Settings::from_parallelism(8);
    assert_eq!(settings.jobs(), 8);
    settings.set_jobs(3);
    assert_eq!(settings.jobs(), 3);
}

// ---- step ----

#[test]
fn run_type_choices() {
    let st = step(Some("eslint {{files}}"), None, None, None);
    assert_eq!(st.run_type(false, false), RunType::Run);
    assert_eq!(st.run_type(false, true), RunType::Run);
    assert_eq!(st.run_type(true, true), RunType::Run);

    let st = step(Some("check"), None, Some("check-all"), None);
    assert_eq!(st.run_type(false, false), RunType::Run);
    assert_eq!(st.run_type(false, true), RunType::RunAll);

    let st = step(Some("check"), Some("fix"), None, Some("fix-all"));
    assert_eq!(st.run_type(false, false), RunType::Fix);
    assert_eq!(st.run_type(false, true), RunType::FixAll);

    let st = step(Some("check"), None, None, Some("fix-all"));
    assert_eq!(st.run_type(false, false), RunType::Run);
    assert_eq!(st.run_type(true, false), RunType::FixAll);

    let st = step(None, None, None, None);
    assert_eq!(st.run_type(false, false), RunType::RunAll);
    assert_eq!(st.command(RunType::RunAll), None);
}

#[test]
fn command_follows_run_type() {
    let st = step(Some("r"), Some("f"), Some("ra"), Some("fa"));
    assert_eq!(st.command(RunType::Run), Some(s("r")));
    assert_eq!(st.command(RunType::Fix), Some(s("f")));
    assert_eq!(st.command(RunType::RunAll), Some(s("ra")));
    assert_eq!(st.command(RunType::FixAll), Some(s("fa")));
}

#[test]
fn plan_skips_steps_without_matches() {
    let mut st = step(Some("eslint"), None, None, None);
    st.glob = Some(vec![s("*.js")]);
    let ctx = StepContext { all_files: false, files: vec![s("a.rs")] };
    assert!(matches!(st.plan(&ctx, false, &vec![]), StepPlan::NoMatches));
    match st.plan(&ctx, false, &vec![s("b.js")]) {
        StepPlan::Execute { run_type, command, files } => {
            assert_eq!(run_type, RunType::Run);
            assert_eq!(command, "eslint");
            assert_eq!(files, vec![s("b.js")]);
        }
        _ => panic!("expected a command to run"),
    }
}

#[test]
fn plan_without_globs_uses_context_files() {
    let st = step(Some("fmt"), None, None, None);
    let ctx = StepContext { all_files: false, files: vec![s("a.rs"), s("b.rs")] };
    match st.plan(&ctx, false, &vec![]) {
        StepPlan::Execute { run_type, command, files } => {
            assert_eq!(run_type, RunType::Run);
            assert_eq!(command, "fmt");
            assert_eq!(files, vec![s("a.rs"), s("b.rs")]);
        }
        _ => panic!("expected a command to run"),
    }
    let empty = step(None, None, None, None);
    assert!(matches!(
        empty.plan(&ctx, false, &vec![]),
        StepPlan::NoCommand { run_type: RunType::RunAll }
    ));
}

#[test]
fn finish_messages() {
    assert_eq!(finish_message(RunType::Run, 1), "1 file");
    assert_eq!(finish_message(RunType::Fix, 3), "3 files");
    assert_eq!(finish_message(RunType::Run, 0), "done");
    assert_eq!(finish_message(RunType::RunAll, 5), "done");
    assert_eq!(finish_message(RunType::FixAll, 1), "done");
    assert_eq!(finish_message(RunType::Run, 12), "12 files");
}

#[test]
fn staging_messages() {
    assert_eq!(staging_message(&vec![s("*.rs"), s("*.md")]), "staging *.rs *.md");
    assert_eq!(staging_message(&vec![s("x")]), "staging x");
    assert_eq!(staging_message(&vec![]), "staging ");
}

#[test]
fn step_shows_its_name() {
    assert_eq!(step(None, None, None, None).to_string(), "eslint");
}

// ---- git ----

#[test]
fn stash_gate() {
    assert!(stash_enabled(true, false, true));
    assert!(stash_enabled(false, true, true));
    assert!(!stash_enabled(false, false, true));
    assert!(!stash_enabled(true, true, false));
    assert!(is_merge_message("Merge branch 'main'"));
    assert!(!is_merge_message("fix: typo"));
}

#[test]
fn stash_round_trip() {
    let mut g = GitState::new(s("/repo/"));
    assert!(!g.has_stash());
    assert!(g.record_diff(vec![1, 2, 3]));
    assert!(g.has_stash());
    assert_eq!(g.take_stash(), Some(vec![1, 2, 3]));
    assert_eq!(g.take_stash(), None);
    assert!(!g.record_diff(vec![]));
    assert_eq!(g.take_stash(), None);
    assert_eq!(g.root(), "/repo/");
}

#[test]
fn pathspecs_are_relative_to_the_root() {
    let g = GitState::new(s("/repo/"));
    let specs = g.pathspecs(&vec![s("/repo/src/a.rs"), s("b.rs")]);
    assert_eq!(specs, vec![s("src/a.rs"), s("b.rs")]);
}

#[test]
fn tree_entry_paths() {
    assert_eq!(tree_entry_path("", "README.md"), "README.md");
    assert_eq!(tree_entry_path("src/", "lib.rs"), "src/lib.rs");
    assert_eq!(tree_entry_path("src", "lib.rs"), "src/lib.rs");
}

// ---- commands ----

#[test]
fn hooks_to_install() {
    assert_eq!(Install::hooks(true, true), vec!["pre-commit", "pre-push"]);
    assert_eq!(Install::hooks(false, true), vec!["pre-push"]);
    assert_eq!(Install::hooks(true, false), vec!["pre-commit"]);
    assert!(Install::hooks(false, false).is_empty());
}

#[test]
fn hook_scripts() {
    assert_eq!(Install::hook_script("pre-commit"), "#!/bin/sh\nhk run pre-commit \"$@\"\n");
    assert_eq!(Install::hook_file("pre-push"), ".git/hooks/pre-push");
    assert_eq!(
        Install::installed_message("pre-push"),
        "Installed hk hook: .git/hooks/pre-push"
    );
}

#[test]
fn init_config_names_the_version() {
    let content = Init::config_content("1.2.3");
    assert!(content.starts_with("// amends \"package://hk.jdx.dev/hk@0.1.0#/hk.pkl\"\namends \"pkl/hk.pkl\"\n"));
    assert!(content.contains("\nmin_hk_version = \"1.2.3\"\n"));
    assert!(content.contains("// pre_commit {\n"));
    assert!(content.ends_with("// update {\n// }\n"));
}

#[test]
fn pre_push_outcomes() {
    let ok: Result<(), String> = Ok(());
    assert_eq!(PrePush::merge_outcomes(ok.clone(), Ok(())), (Ok(()), None));
    assert_eq!(PrePush::merge_outcomes(Ok(()), Err(s("pop"))), (Err(s("pop")), None));
    assert_eq!(PrePush::merge_outcomes(Err(s("run")), Ok(())), (Err(s("run")), None));
    assert_eq!(
        PrePush::merge_outcomes(Err(s("run")), Err(s("pop"))),
        (Err(s("run")), Some(s("pop")))
    );
    let p = PrePush { all: true };
    assert!(p.all);
}

#[test]
fn stash_steps() {
    let mut g = GitState::new(s("/repo/"));
    assert_eq!(
        g.stash_step(StashEvent::Begin { force: false, auto_stash: false, has_head: true }),
        StashAction::Finish
    );
    assert_eq!(
        g.stash_step(StashEvent::Begin { force: true, auto_stash: false, has_head: false }),
        StashAction::Finish
    );
    assert_eq!(
        g.stash_step(StashEvent::Begin { force: false, auto_stash: true, has_head: true }),
        StashAction::ListUnstaged
    );
    assert_eq!(g.stash_step(StashEvent::Unstaged { count: 0 }), StashAction::Finish);
    assert_eq!(g.stash_step(StashEvent::Unstaged { count: 2 }), StashAction::ReadHeadMessage);
    assert_eq!(
        g.stash_step(StashEvent::HeadMessage { message: Some(s("Merge branch 'x'")) }),
        StashAction::Finish
    );
    assert_eq!(
        g.stash_step(StashEvent::HeadMessage { message: Some(s("feat: y")) }),
        StashAction::BuildDiff
    );
    assert_eq!(g.stash_step(StashEvent::HeadMessage { message: None }), StashAction::BuildDiff);
    assert_eq!(g.stash_step(StashEvent::Diff { bytes: vec![] }), StashAction::Finish);
    assert!(!g.has_stash());
    assert_eq!(g.stash_step(StashEvent::Diff { bytes: b"diff".to_vec() }), StashAction::CheckoutHead);
    assert_eq!(g.take_stash(), Some(b"diff".to_vec()));
}

#[test]
fn step_actions_come_in_order() {
    let mut st = step(Some("fmt"), None, None, None);
    assert_eq!(st.next_action(StepPhase::Planned, RunType::Run, 2), StepAction::RunCommand);
    assert_eq!(
        st.next_action(StepPhase::CommandRan, RunType::Run, 2),
        StepAction::Finish { message: s("2 files") }
    );
    st.stage = Some(vec![s("*.rs")]);
    assert_eq!(
        st.next_action(StepPhase::CommandRan, RunType::Run, 2),
        StepAction::Stage { patterns: vec![s("*.rs")] }
    );
    assert_eq!(
        st.next_action(StepPhase::Staged, RunType::RunAll, 2),
        StepAction::Finish { message: s("done") }
    );
}

#[test]
fn var_true_ignores_case_of_ascii() {
    assert!(var_true(Some(s("TrUe"))));
    assert!(!var_true(Some(s("YES"))));
}
