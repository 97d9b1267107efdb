//! The run as a whole: the lab-name precondition, the ordered list of checks,
//! and the aggregation of their outcomes.

use vstd::prelude::*;
use crate::checks::{
    cargo_diag, check_clippy, check_commited_files, check_compiler_warnings, check_fmt,
    check_gitignore, check_lab_folder, check_tests, committed_diag, gitignore_diag,
    lab_folder_diag, opt_seq, step, Context, FileRead, Paths, ToolRun,
};
use crate::diag::{DiagView, Diags, Outcome};
use crate::paths::{adjoins, is_plain_component, join_path};
use crate::text::{join_texts, joined, same_text, views};

verus! {

/// The checks a run may hold.
#[derive(PartialEq, Eq, Structural, Clone, Copy, Debug)]
pub enum CheckKind {
    Gitignore,
    CommittedFiles,
    LabFolder,
    CompilerWarnings,
    Clippy,
    Tests,
    Fmt,
}

/// What was observed for one check.
pub enum Observation {
    /// The ignore file at the repository root.
    IgnoreFile(FileRead),
    /// The run of `git ls-files` at the repository root.
    TrackedFiles(ToolRun),
    /// Whether the lab folder exists.
    LabFolder(bool),
    /// The run of the check's cargo command in the lab folder.
    Cargo(ToolRun),
}

/// The observation is of the kind the check reads.
pub open spec fn fits(kind: CheckKind, obs: Observation) -> bool {
    match kind {
        CheckKind::Gitignore => obs is IgnoreFile,
        CheckKind::CommittedFiles => obs is TrackedFiles,
        CheckKind::LabFolder => obs is LabFolder,
        _ => obs is Cargo,
    }
}

/// What a failed cargo check means.
pub open spec fn cargo_text(kind: CheckKind) -> Seq<char> {
    match kind {
        CheckKind::CompilerWarnings => "code has compiler warnings"@,
        CheckKind::Clippy => "code has clippy warnings"@,
        CheckKind::Tests => "code has failed tests"@,
        _ => "code is not formatted"@,
    }
}

/// The diagnostic that check `kind` records for `obs`, if any.
pub open spec fn check_diag(p: Paths, kind: CheckKind, obs: Observation) -> Option<DiagView> {
    match obs {
        Observation::IgnoreFile(read) => gitignore_diag(p, read),
        Observation::TrackedFiles(run) => committed_diag(p, run),
        Observation::LabFolder(exists) => lab_folder_diag(p, exists),
        Observation::Cargo(run) => cargo_diag(p, cargo_text(kind), run),
    }
}

/// The cargo arguments of a check that runs cargo.
pub open spec fn cargo_args_of(kind: CheckKind) -> Option<Seq<Seq<char>>> {
    match kind {
        CheckKind::CompilerWarnings => Some(seq!["build"@, "--all"@, "-q"@]),
        CheckKind::Clippy => Some(seq!["clippy"@, "--all"@, "-q"@]),
        CheckKind::Tests => Some(seq!["test"@, "--all"@, "-q"@]),
        CheckKind::Fmt => Some(seq!["fmt"@, "--all"@, "--check"@, "-q"@]),
        _ => None,
    }
}

impl CheckKind {
    /// The arguments to run cargo with in the lab folder, for the checks that do.
    pub fn cargo_args(self) -> (r: Option<Vec<String>>)
        ensures
            match r {
                Some(v) => cargo_args_of(self) == Some(views(v@)),
                None => cargo_args_of(self) is None,
            },
    {
        let v = match self {
            CheckKind::CompilerWarnings => vec![
                String::from_str("build"),
                String::from_str("--all"),
                String::from_str("-q"),
            ],
            CheckKind::Clippy => vec![
                String::from_str("clippy"),
                String::from_str("--all"),
                String::from_str("-q"),
            ],
            CheckKind::Tests => vec![
                String::from_str("test"),
                String::from_str("--all"),
                String::from_str("-q"),
            ],
            CheckKind::Fmt => vec![
                String::from_str("fmt"),
                String::from_str("--all"),
                String::from_str("--check"),
                String::from_str("-q"),
            ],
            _ => {
                return None;
            },
        };
        assert(Some(views(v@)) =~= cargo_args_of(self));
        Some(v)
    }
}

/// Every check, in the order they run.
pub fn full_checks() -> (r: Vec<CheckKind>)
    ensures
        r@ == seq![
            CheckKind::Gitignore,
            CheckKind::CommittedFiles,
            CheckKind::LabFolder,
            CheckKind::CompilerWarnings,
            CheckKind::Clippy,
            CheckKind::Tests,
            CheckKind::Fmt,
        ],
{
    let r = vec![
        CheckKind::Gitignore,
        CheckKind::CommittedFiles,
        CheckKind::LabFolder,
        CheckKind::CompilerWarnings,
        CheckKind::Clippy,
        CheckKind::Tests,
        CheckKind::Fmt,
    ];
    assert(r@ =~= seq![
        CheckKind::Gitignore,
        CheckKind::CommittedFiles,
        CheckKind::LabFolder,
        CheckKind::CompilerWarnings,
        CheckKind::Clippy,
        CheckKind::Tests,
        CheckKind::Fmt,
    ]);
    r
}

/// The checks that need no build tool: the ignore file and the committed files.
pub fn minimal_checks() -> (r: Vec<CheckKind>)
    ensures
        r@ == seq![CheckKind::Gitignore, CheckKind::CommittedFiles],
{
    let r = vec![CheckKind::Gitignore, CheckKind::CommittedFiles];
    assert(r@ =~= seq![CheckKind::Gitignore, CheckKind::CommittedFiles]);
    r
}

/// Runs check `kind` on what was observed for it.
pub fn run_check(ctx: &mut Context, kind: CheckKind, obs: &Observation) -> (r: Outcome)
    requires
        fits(kind, *obs),
    ensures
        step(*old(ctx), *final(ctx), check_diag(old(ctx).paths, kind, *obs), r),
{
    match obs {
        Observation::IgnoreFile(read) => check_gitignore(ctx, read),
        Observation::TrackedFiles(run) => check_commited_files(ctx, run),
        Observation::LabFolder(exists) => check_lab_folder(ctx, *exists),
        Observation::Cargo(run) => match kind {
            CheckKind::CompilerWarnings => check_compiler_warnings(ctx, run),
            CheckKind::Clippy => check_clippy(ctx, run),
            CheckKind::Tests => check_tests(ctx, run),
            _ => check_fmt(ctx, run),
        },
    }
}

/// The diagnostics that running `kinds` in order records, one per failed check.
pub open spec fn pipeline_diags(p: Paths, kinds: Seq<CheckKind>, obs: Seq<Observation>) -> Seq<
    DiagView,
>
    decreases kinds.len(),
{
    if kinds.len() == 0 {
        seq![]
    } else {
        pipeline_diags(p, kinds.drop_last(), obs.take(kinds.len() - 1)) + opt_seq(
            check_diag(p, kinds.last(), obs[kinds.len() - 1]),
        )
    }
}

/// The overall outcome of a run that recorded `found`.
pub open spec fn verdict(found: Seq<DiagView>) -> Outcome {
    if found.len() == 0 {
        Outcome::Success
    } else {
        Outcome::Failure
    }
}

/// Runs every check of `kinds` in order, each on its observation, whatever
/// the earlier ones gave; the run fails if any check failed.
pub fn run_checks(ctx: &mut Context, kinds: &Vec<CheckKind>, obs: &Vec<Observation>) -> (r: Outcome)
    requires
        kinds@.len() == obs@.len(),
        forall|i: int| 0 <= i < kinds@.len() ==> fits(kinds@[i], obs@[i]),
    ensures
        final(ctx).paths == old(ctx).paths,
        final(ctx).verbose == old(ctx).verbose,
        final(ctx).problems@ == old(ctx).problems@ + pipeline_diags(old(ctx).paths, kinds@, obs@),
        r == verdict(pipeline_diags(old(ctx).paths, kinds@, obs@)),
{
    let ghost p = ctx.paths;
    let ghost start = ctx.problems@;
    let mut result = Outcome::Success;
    let mut i: usize = 0;
    while i < kinds.len()
        invariant
            i <= kinds@.len() == obs@.len(),
            forall|j: int| 0 <= j < kinds@.len() ==> fits(kinds@[j], obs@[j]),
            ctx.paths == p,
            ctx.verbose == old(ctx).verbose,
            p == old(ctx).paths,
            start == old(ctx).problems@,
            ctx.problems@ == start + pipeline_diags(p, kinds@.take(i as int), obs@.take(i as int)),
            result == verdict(pipeline_diags(p, kinds@.take(i as int), obs@.take(i as int))),
        decreases kinds@.len() - i,
    {
        let ghost prev = pipeline_diags(p, kinds@.take(i as int), obs@.take(i as int));
        let ghost d = check_diag(p, kinds@[i as int], obs@[i as int]);
        assert(kinds@.take((i + 1) as int).drop_last() =~= kinds@.take(i as int));
        assert(obs@.take((i + 1) as int).take(i as int) =~= obs@.take(i as int));
        assert(pipeline_diags(p, kinds@.take((i + 1) as int), obs@.take((i + 1) as int)) == prev
            + opt_seq(d));
        let r = run_check(ctx, kinds[i], &obs[i]);
        assert(ctx.problems@ =~= start + (prev + opt_seq(d)));
        result = result.and(r);
        i = i + 1;
    }
    assert(kinds@.take(kinds@.len() as int) =~= kinds@);
    assert(obs@.take(obs@.len() as int) =~= obs@);
    result
}


/// The lab identifiers a run accepts.
pub open spec fn lab_names() -> Seq<Seq<char>> {
    seq![
        "lab01"@, "lab02"@, "lab03"@, "lab04"@, "lab05"@, "lab06"@, "lab07"@, "project"@,
    ]
}

/// The diagnostic for a lab identifier outside the accepted ones.
pub open spec fn lab_name_diag(name: Seq<char>) -> DiagView {
    (
        "`"@ + name + "` is not an expected lab name"@,
        None,
        Some("expected one of: "@ + joined(lab_names(), ", "@)),
    )
}

/// The accepted lab identifiers.
fn lab_name_list() -> (r: Vec<String>)
    ensures
        views(r@) == lab_names(),
{
    let r = vec![
        String::from_str("lab01"),
        String::from_str("lab02"),
        String::from_str("lab03"),
        String::from_str("lab04"),
        String::from_str("lab05"),
        String::from_str("lab06"),
        String::from_str("lab07"),
        String::from_str("project"),
    ];
    assert(views(r@) =~= lab_names());
    r
}

/// The lab identifier is one of the accepted ones; otherwise records a
/// diagnostic that lists them.
pub fn validate_lab_name(problems: &mut Diags, name: &str) -> (r: Outcome)
    ensures
        lab_names().contains(name@) ==> r == Outcome::Success && final(problems)@ == old(problems)@,
        !lab_names().contains(name@) ==> r == Outcome::Failure && final(problems)@ == old(
            problems,
        )@.push(lab_name_diag(name@)),
{
    let names = lab_name_list();
    let mut i: usize = 0;
    while i < names.len()
        invariant
            i <= names@.len(),
            views(names@) == lab_names(),
            forall|j: int| 0 <= j < i ==> lab_names()[j] != name@,
        decreases names@.len() - i,
    {
        if same_text(names[i].as_str(), name) {
            assert(lab_names()[i as int] == name@);
            return Outcome::Success;
        }
        i = i + 1;
    }
    let text = String::from_str("`").concat(name).concat("` is not an expected lab name");
    let help = String::from_str("expected one of: ").concat(join_texts(&names, ", ").as_str());
    problems.add(text, None, Some(help))
}

/// Each accepted lab identifier, and the ignore file's name, is a single
/// plain path component.
proof fn lemma_names_are_components()
    ensures
        forall|i: int| 0 <= i < lab_names().len() ==> is_plain_component(#[trigger] lab_names()[i]),
        is_plain_component(".gitignore"@),
{
    reveal_strlit("lab01");
    reveal_strlit("lab02");
    reveal_strlit("lab03");
    reveal_strlit("lab04");
    reveal_strlit("lab05");
    reveal_strlit("lab06");
    reveal_strlit("lab07");
    reveal_strlit("project");
    reveal_strlit(".gitignore");
    let g = ".gitignore"@;
    assert(g.len() == 10);
    assert(g != seq!['.']);
    assert(g != seq!['.', '.']);
    assert forall|i: int| 0 <= i < g.len() implies g[i] != '/' && g[i] != '\\' && g[i] != ':' by {}
    assert forall|i: int| 0 <= i < lab_names().len() implies is_plain_component(
        #[trigger] lab_names()[i],
    ) by {
        let s = lab_names()[i];
        assert(s.len() >= 5);
        assert(s != seq!['.']);
        assert(s != seq!['.', '.']);
    }
}

impl Context {
    /// The context of a run on repository `repo` and accepted lab `lab`.
    pub fn new(problems: Diags, repo: String, lab: &str, verbose: bool) -> (r: Context)
        requires
            lab_names().contains(lab@),
        ensures
            r.problems@ == problems@,
            r.paths.repo@ == repo@,
            adjoins(repo@, lab@, r.paths.lab@),
            adjoins(repo@, ".gitignore"@, r.paths.ignore@),
            r.verbose == verbose,
    {
        proof {
            lemma_names_are_components();
        }
        let lab_path = join_path(repo.as_str(), lab);
        let ignore = join_path(repo.as_str(), ".gitignore");
        Context { problems, paths: Paths { repo, lab: lab_path, ignore }, verbose }
    }
}

/// Checks the lab identifier and, where it is accepted, builds the context
/// of the run; otherwise hands back the diagnostics with the reason added.
pub fn prepare_run(problems: Diags, repo: String, lab: &str, verbose: bool) -> (r: Result<
    Context,
    Diags,
>)
    ensures
        r is Ok <==> lab_names().contains(lab@),
        match r {
            Ok(c) => {
                &&& c.problems@ == problems@
                &&& c.paths.repo@ == repo@
                &&& adjoins(repo@, lab@, c.paths.lab@)
                &&& adjoins(repo@, ".gitignore"@, c.paths.ignore@)
                &&& c.verbose == verbose
            },
            Err(d) => d@ == problems@.push(lab_name_diag(lab@)),
        },
{
    let mut problems = problems;
    match validate_lab_name(&mut problems, lab) {
        Outcome::Success => Ok(Context::new(problems, repo, lab, verbose)),
        Outcome::Failure => Err(problems),
    }
}

} // verus!
