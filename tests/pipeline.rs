use course_check::checks::{FileRead, ToolExit, ToolRun};
use course_check::diag::{Diags, Label, Outcome};
use course_check::pipeline::{
    full_checks, minimal_checks, prepare_run, run_checks, validate_lab_name, CheckKind, Observation,
};

fn ok_run(stdout: &str) -> ToolRun {
    ToolRun::Exited(ToolExit { success: true, status: "exit status: 0".to_string(), stdout: stdout.to_string() })
}

fn failed_run() -> ToolRun {
    ToolRun::Exited(ToolExit { success: false, status: "exit status: 1".to_string(), stdout: String::new() })
}

fn clean_observations() -> Vec<Observation> {
    vec![
        Observation::IgnoreFile(FileRead::Text("/target\n".to_string())),
        Observation::TrackedFiles(ok_run("src/main.rs\n.gitignore\n")),
        Observation::LabFolder(true),
        Observation::Cargo(ok_run("")),
        Observation::Cargo(ok_run("")),
        Observation::Cargo(ok_run("")),
        Observation::Cargo(ok_run("")),
    ]
}

#[test]
fn lab_name_accepted() {
    let mut d = Diags::new();
    assert_eq!(validate_lab_name(&mut d, "lab03"), Outcome::Success);
    assert_eq!(validate_lab_name(&mut d, "project"), Outcome::Success);
    assert!(d.is_empty());
}

#[test]
fn lab_name_rejected_lists_names() {
    let mut d = Diags::new();
    assert_eq!(validate_lab_name(&mut d, "lab99"), Outcome::Failure);
    assert_eq!(d.problems.len(), 1);
    assert_eq!(d.problems[0].text, "`lab99` is not an expected lab name");
    assert_eq!(d.problems[0].path, None);
    assert_eq!(
        d.problems[0].help.as_deref(),
        Some("expected one of: lab01, lab02, lab03, lab04, lab05, lab06, lab07, project")
    );
}

#[test]
fn prepare_rejects_unknown_lab() {
    let r = prepare_run(Diags::new(), "repo".to_string(), "lab8", false);
    let d = r.err().expect("lab8 is not accepted");
    assert_eq!(d.problems.len(), 1);
}

#[test]
fn prepare_joins_paths() {
    let ctx = prepare_run(Diags::new(), "/home/s/repo".to_string(), "lab07", true).expect("accepted");
    assert_eq!(ctx.paths.repo, "/home/s/repo");
    assert_eq!(ctx.paths.lab, "/home/s/repo/lab07");
    assert_eq!(ctx.paths.ignore, "/home/s/repo/.gitignore");
    assert!(ctx.verbose);
}

#[test]
fn clean_submission_passes_full_set() {
    let mut ctx = prepare_run(Diags::new(), "repo".to_string(), "lab01", false).expect("accepted");
    let r = run_checks(&mut ctx, &full_checks(), &clean_observations());
    assert_eq!(r, Outcome::Success);
    assert_eq!(r.exit_code(), 0);
    assert!(ctx.problems.is_empty());
}

#[test]
fn clean_submission_twice_gives_same_empty_report() {
    let mut first = prepare_run(Diags::new(), "repo".to_string(), "lab01", false).expect("accepted");
    let mut second = prepare_run(Diags::new(), "repo".to_string(), "lab01", false).expect("accepted");
    let a = run_checks(&mut first, &full_checks(), &clean_observations());
    let b = run_checks(&mut second, &full_checks(), &clean_observations());
    assert_eq!(a, b);
    assert_eq!(first.problems.problems.len(), 0);
    assert_eq!(second.problems.problems.len(), 0);
}

#[test]
fn defects_fail_and_later_checks_still_run() {
    let mut ctx = prepare_run(Diags::new(), "repo".to_string(), "lab02", false).expect("accepted");
    let obs = vec![
        Observation::IgnoreFile(FileRead::Missing),
        Observation::TrackedFiles(ok_run("a.txt\n")),
        Observation::LabFolder(true),
        Observation::Cargo(ok_run("")),
        Observation::Cargo(ok_run("")),
        Observation::Cargo(ok_run("")),
        Observation::Cargo(failed_run()),
    ];
    let r = run_checks(&mut ctx, &full_checks(), &obs);
    assert_eq!(r, Outcome::Failure);
    assert_eq!(r.exit_code(), 1);
    assert_eq!(ctx.problems.problems.len(), 2);
    assert_eq!(ctx.problems.problems[0].text, ".gitignore doesn't exist");
    assert_eq!(ctx.problems.problems[1].text, "code is not formatted; command `cargo` failed: exit status: 1");
}

#[test]
fn minimal_set_runs_two_checks() {
    assert_eq!(minimal_checks(), vec![CheckKind::Gitignore, CheckKind::CommittedFiles]);
    let mut ctx = prepare_run(Diags::new(), "repo".to_string(), "lab04", false).expect("accepted");
    let obs = vec![
        Observation::IgnoreFile(FileRead::Text("x".to_string())),
        Observation::TrackedFiles(ok_run("a.dll\n")),
    ];
    assert_eq!(run_checks(&mut ctx, &minimal_checks(), &obs), Outcome::Failure);
    assert_eq!(ctx.problems.problems.len(), 2);
}

#[test]
fn cargo_arguments() {
    assert_eq!(full_checks().len(), 7);
    assert_eq!(CheckKind::Gitignore.cargo_args(), None);
    assert_eq!(CheckKind::Clippy.cargo_args(), Some(vec!["clippy".to_string(), "--all".to_string(), "-q".to_string()]));
    assert_eq!(
        CheckKind::Fmt.cargo_args(),
        Some(vec!["fmt".to_string(), "--all".to_string(), "--check".to_string(), "-q".to_string()])
    );
}

#[test]
fn outcome_and_exit_code() {
    assert_eq!(Outcome::Success.and(Outcome::Failure), Outcome::Failure);
    assert_eq!(Outcome::Failure.and(Outcome::Success), Outcome::Failure);
    assert_eq!(Outcome::Success.and(Outcome::Success), Outcome::Success);
    assert_eq!(Outcome::Success.exit_code(), 0);
    assert_eq!(Outcome::Failure.exit_code(), 1);
}

#[test]
fn empty_report_is_one_line() {
    let lines = Diags::new().render();
    assert_eq!(lines.len(), 1);
    assert_eq!(lines[0].label, None);
    assert_eq!(lines[0].text, "no problems found");
}

#[test]
fn report_lists_each_diagnostic() {
    let mut d = Diags::new();
    d.add("first".to_string(), Some("p".to_string()), Some("h".to_string()));
    d.add("second".to_string(), None, None);
    let lines = d.render();
    let got: Vec<(Option<Label>, String)> = lines.into_iter().map(|l| (l.label, l.text)).collect();
    assert_eq!(
        got,
        vec![
            (None, "some problems were found:".to_string()),
            (Some(Label::Error), "first".to_string()),
            (Some(Label::Path), "p".to_string()),
            (Some(Label::Help), "h".to_string()),
            (Some(Label::Error), "second".to_string()),
        ]
    );
    assert_eq!(Label::Help.name(), "help");
}

#[test]
fn prepare_joins_after_trailing_separator_and_empty_root() {
    let ctx = prepare_run(Diags::new(), "r/".to_string(), "lab05", false).expect("accepted");
    assert_eq!(ctx.paths.lab, "r/lab05");
    assert_eq!(ctx.paths.ignore, "r/.gitignore");
    let ctx = prepare_run(Diags::new(), String::new(), "lab06", false).expect("accepted");
    assert_eq!(ctx.paths.lab, "lab06");
    assert_eq!(ctx.paths.ignore, ".gitignore");
}
