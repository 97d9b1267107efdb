//! The checks on a submission. Each takes what was observed on disk or from a
//! tool run and either passes or records exactly one diagnostic.

use vstd::prelude::*;
use crate::diag::{DiagView, Diags, Outcome};
use crate::text::{
    contains_seq, contains_text, decimal, decimal_of, ends_with, join_texts, joined, lines_of,
    range_ends_with, split_lines, views, chars_of,
};

verus! {

/// The paths a run works on.
pub struct Paths {
    /// The repository root.
    pub repo: String,
    /// The lab folder below the root.
    pub lab: String,
    /// The ignore file at the root.
    pub ignore: String,
}

/// The state shared by the checks of one run.
pub struct Context {
    pub problems: Diags,
    pub paths: Paths,
    pub verbose: bool,
}

/// What reading the ignore file gave.
pub enum FileRead {
    Missing,
    Unreadable,
    Text(String),
}

/// How a tool process ended.
pub struct ToolExit {
    /// Whether it exited with status zero.
    pub success: bool,
    /// Its exit status as printed.
    pub status: String,
    /// What it wrote to standard output.
    pub stdout: String,
}

/// What running an external tool gave.
pub enum ToolRun {
    /// It could not be started; the system's message.
    SpawnFailed(String),
    Exited(ToolExit),
}

/// A diagnostic as a sequence of zero or one entries.
pub open spec fn opt_seq(d: Option<DiagView>) -> Seq<DiagView> {
    match d {
        Some(x) => seq![x],
        None => seq![],
    }
}

/// A check went from `before` to `after`: the paths stay, the diagnostic `d`
/// (if any) is appended, and the outcome is a success exactly when there is none.
pub open spec fn step(before: Context, after: Context, d: Option<DiagView>, r: Outcome) -> bool {
    &&& after.paths == before.paths
    &&& after.verbose == before.verbose
    &&& after.problems@ == match d {
        Some(x) => before.problems@.push(x),
        None => before.problems@,
    }
    &&& (r == Outcome::Success <==> d is None)
}

/// The hint given when the ignore file is missing or incomplete.
pub open spec fn ignore_help() -> Seq<char> {
    "you need to have a file like this: https://github.com/xTachyon/rust_course_helper/blob/main/.gitignore"@
}

/// The diagnostic of the ignore-file check.
pub open spec fn gitignore_diag(p: Paths, read: FileRead) -> Option<DiagView> {
    match read {
        FileRead::Missing => Some((".gitignore doesn't exist"@, Some(p.ignore@), Some(ignore_help()))),
        FileRead::Unreadable => Some(("can't read file"@, Some(p.ignore@), None)),
        FileRead::Text(t) => if contains_seq(t@, "target"@) {
            None
        } else {
            Some(("target folder doesn't exist in .gitignore"@, Some(p.ignore@), Some(ignore_help())))
        },
    }
}

/// The ignore file exists and mentions the build-output folder `target`.
pub fn check_gitignore(ctx: &mut Context, read: &FileRead) -> (r: Outcome)
    ensures
        step(*old(ctx), *final(ctx), gitignore_diag(old(ctx).paths, *read), r),
{
    let help = "you need to have a file like this: https://github.com/xTachyon/rust_course_helper/blob/main/.gitignore";
    match read {
        FileRead::Missing => ctx.problems.add(
            String::from_str(".gitignore doesn't exist"),
            Some(ctx.paths.ignore.clone()),
            Some(String::from_str(help)),
        ),
        FileRead::Unreadable => ctx.problems.add(
            String::from_str("can't read file"),
            Some(ctx.paths.ignore.clone()),
            None,
        ),
        FileRead::Text(t) => {
            if contains_text(t.as_str(), "target") {
                Outcome::Success
            } else {
                ctx.problems.add(
                    String::from_str("target folder doesn't exist in .gitignore"),
                    Some(ctx.paths.ignore.clone()),
                    Some(String::from_str(help)),
                )
            }
        },
    }
}

/// The diagnostic for a tool that exited with a failure status.
pub open spec fn command_diag(p: Paths, name: Seq<char>, exit: ToolExit, text: Seq<char>) -> Option<
    DiagView,
> {
    if exit.success {
        None
    } else {
        Some((text + "; command `"@ + name + "` failed: "@ + exit.status@, Some(p.repo@), None))
    }
}

/// A tool named `name` exited with status zero; `text` says what a failure means.
pub fn command_check_return(ctx: &mut Context, name: &str, exit: &ToolExit, text: &str) -> (r:
    Outcome)
    ensures
        step(*old(ctx), *final(ctx), command_diag(old(ctx).paths, name@, *exit, text@), r),
{
    if !exit.success {
        let msg = String::from_str(text).concat("; command `").concat(name).concat("` failed: ").concat(
            exit.status.as_str(),
        );
        return ctx.problems.add(msg, Some(ctx.paths.repo.clone()), None);
    }
    Outcome::Success
}

/// The extensions of build outputs that must not be committed.
pub open spec fn artifact_extensions() -> Seq<Seq<char>> {
    seq![
        ".exe"@, ".dll"@, ".pdb"@, ".lib"@, ".obj"@, ".so"@, ".dylib"@, ".a"@, ".o"@, ".rlib"@,
        ".rmeta"@, ".d"@,
    ]
}

/// `path` ends in one of the build-output extensions.
pub open spec fn is_artifact(path: Seq<char>) -> bool {
    exists|k: int| 0 <= k < artifact_extensions().len() && ends_with(path, artifact_extensions()[k])
}

/// The entries of `files` that are build outputs, in order.
pub open spec fn artifacts_in(files: Seq<Seq<char>>) -> Seq<Seq<char>>
    decreases files.len(),
{
    if files.len() == 0 {
        seq![]
    } else if is_artifact(files.last()) {
        artifacts_in(files.drop_last()).push(files.last())
    } else {
        artifacts_in(files.drop_last())
    }
}

/// How many offending files the message lists at most.
pub const MAX_LISTED: usize = 20;

/// The first twenty entries of `bad`, or all where there are fewer.
pub open spec fn listed(bad: Seq<Seq<char>>) -> Seq<Seq<char>> {
    if bad.len() <= MAX_LISTED {
        bad
    } else {
        bad.take(MAX_LISTED as int)
    }
}

/// The message naming the committed build outputs: the first twenty, then a
/// count of the rest.
pub open spec fn artifact_message(bad: Seq<Seq<char>>) -> Seq<char> {
    "build files were found in the repo. bad files: "@ + joined(listed(bad), "\n"@)
        + if bad.len() > MAX_LISTED {
        "\n...and "@ + decimal_of((bad.len() - MAX_LISTED) as nat) + " more"@
    } else {
        seq![]
    }
}

/// The diagnostic of the committed-files check, given the run of `git ls-files`.
pub open spec fn committed_diag(p: Paths, run: ToolRun) -> Option<DiagView> {
    match run {
        ToolRun::SpawnFailed(e) => Some(("git failed: "@ + e@, Some(p.repo@), None)),
        ToolRun::Exited(x) => if !x.success {
            command_diag(p, "git"@, x, "failed"@)
        } else if artifacts_in(lines_of(x.stdout@)).len() == 0 {
            None
        } else {
            Some(
                (
                    artifact_message(artifacts_in(lines_of(x.stdout@))),
                    Some(p.repo@),
                    Some("remove target directories and all build artifacts"@),
                ),
            )
        },
    }
}

/// Whether `path` ends in one of the build-output extensions.
pub fn is_build_artifact(path: &str) -> (r: bool)
    ensures
        r == is_artifact(path@),
{
    let exts = vec![
        ".exe", ".dll", ".pdb", ".lib", ".obj", ".so", ".dylib", ".a", ".o", ".rlib", ".rmeta",
        ".d",
    ];
    assert(exts@.map_values(|e: &str| e@) =~= artifact_extensions());
    let c = chars_of(path);
    let n = c.len();
    assert(c@.subrange(0, n as int) =~= path@);
    let mut k: usize = 0;
    while k < exts.len()
        invariant
            k <= exts@.len(),
            exts@.map_values(|e: &str| e@) == artifact_extensions(),
            c@ == path@,
            c@.subrange(0, n as int) == path@,
            n == c@.len(),
            forall|j: int| 0 <= j < k ==> !ends_with(path@, artifact_extensions()[j]),
        decreases exts@.len() - k,
    {
        let e = chars_of(exts[k]);
        assert(exts@[k as int]@ == artifact_extensions()[k as int]);
        if range_ends_with(&c, 0, n, &e) {
            return true;
        }
        k = k + 1;
    }
    false
}

/// The lines of `text` that name build outputs.
fn artifact_lines(text: &str) -> (r: Vec<String>)
    ensures
        views(r@) == artifacts_in(lines_of(text@)),
{
    let lines = split_lines(text);
    let ghost all = views(lines@);
    let mut bad: Vec<String> = Vec::new();
    let mut i: usize = 0;
    while i < lines.len()
        invariant
            i <= lines@.len(),
            all == views(lines@),
            all == lines_of(text@),
            views(bad@) == artifacts_in(all.take(i as int)),
        decreases lines@.len() - i,
    {
        assert(all.take((i + 1) as int).drop_last() =~= all.take(i as int));
        assert(all.take((i + 1) as int).last() == lines@[i as int]@);
        if is_build_artifact(lines[i].as_str()) {
            let ghost before = bad@;
            bad.push(lines[i].clone());
            assert(views(bad@) =~= views(before).push(lines@[i as int]@));
        }
        i = i + 1;
    }
    assert(all.take(lines@.len() as int) =~= all);
    bad
}

/// The message naming the committed build outputs in `bad`.
fn artifact_text(bad: &Vec<String>) -> (r: String)
    ensures
        r@ == artifact_message(views(bad@)),
{
    let shown_len = if bad.len() < MAX_LISTED {
        bad.len()
    } else {
        MAX_LISTED
    };
    let mut shown: Vec<String> = Vec::new();
    let mut i: usize = 0;
    while i < shown_len
        invariant
            i <= shown_len <= bad@.len(),
            views(shown@) == views(bad@).take(i as int),
        decreases shown_len - i,
    {
        let ghost before = shown@;
        shown.push(bad[i].clone());
        assert(views(shown@) =~= views(before).push(bad@[i as int]@));
        assert(views(bad@).take((i + 1) as int) =~= views(bad@).take(i as int).push(bad@[i as int]@));
        i = i + 1;
    }
    assert(views(bad@).take(shown_len as int) =~= listed(views(bad@)));
    let text = String::from_str("build files were found in the repo. bad files: ").concat(
        join_texts(&shown, "\n").as_str(),
    );
    if bad.len() > MAX_LISTED {
        let more = String::from_str("\n...and ").concat(decimal(bad.len() - MAX_LISTED).as_str()).concat(
            " more",
        );
        text.concat(more.as_str())
    } else {
        assert(text@ + seq![] =~= text@);
        text
    }
}

/// No file tracked by version control is a build output, given the run of
/// `git ls-files` in the repository.
pub fn check_commited_files(ctx: &mut Context, run: &ToolRun) -> (r: Outcome)
    ensures
        step(*old(ctx), *final(ctx), committed_diag(old(ctx).paths, *run), r),
{
    match run {
        ToolRun::SpawnFailed(e) => ctx.problems.add(
            String::from_str("git failed: ").concat(e.as_str()),
            Some(ctx.paths.repo.clone()),
            None,
        ),
        ToolRun::Exited(x) => {
            if !x.success {
                return command_check_return(ctx, "git", x, "failed");
            }
            let bad = artifact_lines(x.stdout.as_str());
            if bad.len() == 0 {
                return Outcome::Success;
            }
            let text = artifact_text(&bad);
            ctx.problems.add(
                text,
                Some(ctx.paths.repo.clone()),
                Some(String::from_str("remove target directories and all build artifacts")),
            )
        },
    }
}


/// The diagnostic of the lab-folder check.
pub open spec fn lab_folder_diag(p: Paths, exists: bool) -> Option<DiagView> {
    if exists {
        None
    } else {
        Some(("lab folder doesn't exist"@, Some(p.lab@), None))
    }
}

/// The lab folder exists below the repository root.
pub fn check_lab_folder(ctx: &mut Context, exists: bool) -> (r: Outcome)
    ensures
        step(*old(ctx), *final(ctx), lab_folder_diag(old(ctx).paths, exists), r),
{
    if !exists {
        return ctx.problems.add(
            String::from_str("lab folder doesn't exist"),
            Some(ctx.paths.lab.clone()),
            None,
        );
    }
    Outcome::Success
}

/// The diagnostic of a cargo run in the lab folder; `text` says what a failure means.
pub open spec fn cargo_diag(p: Paths, text: Seq<char>, run: ToolRun) -> Option<DiagView> {
    match run {
        ToolRun::SpawnFailed(e) => Some(
            (text + "; because: cargo failed with `"@ + e@ + "`"@, Some(p.lab@), None),
        ),
        ToolRun::Exited(x) => command_diag(p, "cargo"@, x, text),
    }
}

/// A cargo run in the lab folder succeeded; `text` says what a failure means.
pub fn run_cargo(ctx: &mut Context, text: &str, run: &ToolRun) -> (r: Outcome)
    ensures
        step(*old(ctx), *final(ctx), cargo_diag(old(ctx).paths, text@, *run), r),
{
    match run {
        ToolRun::SpawnFailed(e) => {
            let msg = String::from_str(text).concat("; because: cargo failed with `").concat(
                e.as_str(),
            ).concat("`");
            ctx.problems.add(msg, Some(ctx.paths.lab.clone()), None)
        },
        ToolRun::Exited(x) => command_check_return(ctx, "cargo", x, text),
    }
}

/// The lab builds without warnings or errors.
pub fn check_compiler_warnings(ctx: &mut Context, run: &ToolRun) -> (r: Outcome)
    ensures
        step(*old(ctx), *final(ctx), cargo_diag(old(ctx).paths, "code has compiler warnings"@, *run), r),
{
    run_cargo(ctx, "code has compiler warnings", run)
}

/// The linter reports nothing on the lab.
pub fn check_clippy(ctx: &mut Context, run: &ToolRun) -> (r: Outcome)
    ensures
        step(*old(ctx), *final(ctx), cargo_diag(old(ctx).paths, "code has clippy warnings"@, *run), r),
{
    run_cargo(ctx, "code has clippy warnings", run)
}

/// The lab's tests pass.
pub fn check_tests(ctx: &mut Context, run: &ToolRun) -> (r: Outcome)
    ensures
        step(*old(ctx), *final(ctx), cargo_diag(old(ctx).paths, "code has failed tests"@, *run), r),
{
    run_cargo(ctx, "code has failed tests", run)
}

/// The lab's sources are already formatted.
pub fn check_fmt(ctx: &mut Context, run: &ToolRun) -> (r: Outcome)
    ensures
        step(*old(ctx), *final(ctx), cargo_diag(old(ctx).paths, "code is not formatted"@, *run), r),
{
    run_cargo(ctx, "code is not formatted", run)
}

} // verus!
