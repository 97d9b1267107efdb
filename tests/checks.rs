use course_check::checks::{
    check_commited_files, check_gitignore, check_lab_folder, command_check_return, run_cargo,
    Context, FileRead, ToolExit, ToolRun,
};
use course_check::diag::{Diags, Outcome};
use course_check::pipeline::prepare_run;

fn context() -> Context {
    prepare_run(Diags::new(), "repo".to_string(), "lab03", false).expect("lab03 is accepted")
}

fn exited(success: bool, status: &str, stdout: &str) -> ToolRun {
    ToolRun::Exited(ToolExit {
        success,
        status: status.to_string(),
        stdout: stdout.to_string(),
    })
}

#[test]
fn gitignore_with_target_passes() {
    let mut ctx = context();
    let r = check_gitignore(&mut ctx, &FileRead::Text("*.swp\n/target\n".to_string()));
    assert_eq!(r, Outcome::Success);
    assert!(ctx.problems.is_empty());
}

#[test]
fn gitignore_target_inside_a_line_passes() {
    let mut ctx = context();
    let r = check_gitignore(&mut ctx, &FileRead::Text("**/mytargets/".to_string()));
    assert_eq!(r, Outcome::Success);
}

#[test]
fn gitignore_without_target_fails() {
    let mut ctx = context();
    let r = check_gitignore(&mut ctx, &FileRead::Text("Cargo.lock\n*.o\n".to_string()));
    assert_eq!(r, Outcome::Failure);
    assert_eq!(ctx.problems.problems.len(), 1);
    let d = &ctx.problems.problems[0];
    assert_eq!(d.text, "target folder doesn't exist in .gitignore");
    assert_eq!(d.path.as_deref(), Some("repo/.gitignore"));
    assert!(d.help.is_some());
}

#[test]
fn gitignore_empty_fails() {
    let mut ctx = context();
    let r = check_gitignore(&mut ctx, &FileRead::Text(String::new()));
    assert_eq!(r, Outcome::Failure);
}

#[test]
fn gitignore_missing_fails() {
    let mut ctx = context();
    let r = check_gitignore(&mut ctx, &FileRead::Missing);
    assert_eq!(r, Outcome::Failure);
    let d = &ctx.problems.problems[0];
    assert_eq!(d.text, ".gitignore doesn't exist");
    assert_eq!(d.path.as_deref(), Some("repo/.gitignore"));
    assert!(d.help.is_some());
}

#[test]
fn gitignore_unreadable_fails() {
    let mut ctx = context();
    let r = check_gitignore(&mut ctx, &FileRead::Unreadable);
    assert_eq!(r, Outcome::Failure);
    let d = &ctx.problems.problems[0];
    assert_eq!(d.text, "can't read file");
    assert_eq!(d.help, None);
}

#[test]
fn artifact_listed_exactly() {
    let mut ctx = context();
    let r = check_commited_files(&mut ctx, &exited(true, "exit status: 0", "src/main.rs\nbuild/out.o\na.txt\n"));
    assert_eq!(r, Outcome::Failure);
    assert_eq!(ctx.problems.problems.len(), 1);
    let d = &ctx.problems.problems[0];
    assert_eq!(d.text, "build files were found in the repo. bad files: build/out.o");
    assert_eq!(d.path.as_deref(), Some("repo"));
    assert_eq!(d.help.as_deref(), Some("remove target directories and all build artifacts"));
}

#[test]
fn artifact_list_truncated_after_twenty() {
    let mut ctx = context();
    let files: Vec<String> = (0..25).map(|i| format!("f{i}.rlib")).collect();
    let stdout = files.join("\n");
    let r = check_commited_files(&mut ctx, &exited(true, "exit status: 0", &stdout));
    assert_eq!(r, Outcome::Failure);
    let expected = format!(
        "build files were found in the repo. bad files: {}\n...and 5 more",
        files[..20].join("\n")
    );
    assert_eq!(ctx.problems.problems[0].text, expected);
}

#[test]
fn artifact_list_of_exactly_twenty_has_no_suffix() {
    let mut ctx = context();
    let files: Vec<String> = (0..20).map(|i| format!("lib{i}.so")).collect();
    let stdout = files.join("\r\n") + "\r\n";
    check_commited_files(&mut ctx, &exited(true, "exit status: 0", &stdout));
    let expected = format!("build files were found in the repo. bad files: {}", files.join("\n"));
    assert_eq!(ctx.problems.problems[0].text, expected);
}

#[test]
fn no_artifacts_passes() {
    let mut ctx = context();
    let r = check_commited_files(&mut ctx, &exited(true, "exit status: 0", "src/main.rs\nCargo.toml\nREADME.md\n"));
    assert_eq!(r, Outcome::Success);
    assert!(ctx.problems.is_empty());
}

#[test]
fn git_spawn_failure_recorded() {
    let mut ctx = context();
    let r = check_commited_files(&mut ctx, &ToolRun::SpawnFailed("No such file or directory (os error 2)".to_string()));
    assert_eq!(r, Outcome::Failure);
    assert_eq!(ctx.problems.problems[0].text, "git failed: No such file or directory (os error 2)");
}

#[test]
fn git_failure_status_recorded() {
    let mut ctx = context();
    let r = check_commited_files(&mut ctx, &exited(false, "exit status: 128", "x.o\n"));
    assert_eq!(r, Outcome::Failure);
    assert_eq!(ctx.problems.problems.len(), 1);
    assert_eq!(ctx.problems.problems[0].text, "failed; command `git` failed: exit status: 128");
}

#[test]
fn lab_folder_missing_fails() {
    let mut ctx = context();
    assert_eq!(check_lab_folder(&mut ctx, true), Outcome::Success);
    assert_eq!(check_lab_folder(&mut ctx, false), Outcome::Failure);
    let d = &ctx.problems.problems[0];
    assert_eq!(d.text, "lab folder doesn't exist");
    assert_eq!(d.path.as_deref(), Some("repo/lab03"));
    assert_eq!(d.help, None);
}

#[test]
fn cargo_failure_recorded() {
    let mut ctx = context();
    let r = run_cargo(&mut ctx, "code has failed tests", &exited(false, "exit status: 101", ""));
    assert_eq!(r, Outcome::Failure);
    assert_eq!(ctx.problems.problems[0].text, "code has failed tests; command `cargo` failed: exit status: 101");
    assert_eq!(ctx.problems.problems[0].path.as_deref(), Some("repo"));
}

#[test]
fn cargo_spawn_failure_recorded() {
    let mut ctx = context();
    let r = run_cargo(&mut ctx, "code is not formatted", &ToolRun::SpawnFailed("not found".to_string()));
    assert_eq!(r, Outcome::Failure);
    assert_eq!(ctx.problems.problems[0].text, "code is not formatted; because: cargo failed with `not found`");
    assert_eq!(ctx.problems.problems[0].path.as_deref(), Some("repo/lab03"));
}

#[test]
fn command_success_records_nothing() {
    let mut ctx = context();
    let exit = ToolExit { success: true, status: "exit status: 0".to_string(), stdout: String::new() };
    assert_eq!(command_check_return(&mut ctx, "cargo", &exit, "x"), Outcome::Success);
    assert!(ctx.problems.is_empty());
}

#[test]
fn gitignore_hint_names_reference_file() {
    let hint = "you need to have a file like this: https://github.com/xTachyon/rust_course_helper/blob/main/.gitignore";
    let mut ctx = context();
    check_gitignore(&mut ctx, &FileRead::Missing);
    check_gitignore(&mut ctx, &FileRead::Text("Cargo.lock\n".to_string()));
    assert_eq!(ctx.problems.problems.len(), 2);
    assert_eq!(ctx.problems.problems[0].help.as_deref(), Some(hint));
    assert_eq!(ctx.problems.problems[1].help.as_deref(), Some(hint));
}
