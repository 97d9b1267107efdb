//! What holds of every run: a clean submission passes and leaves nothing
//! recorded, and any defect fails the run without stopping later checks.

use vstd::prelude::*;
use crate::checks::{artifacts_in, is_artifact, opt_seq, FileRead, Paths, ToolRun};
use crate::diag::{DiagView, Outcome};
use crate::pipeline::{check_diag, fits, pipeline_diags, verdict, CheckKind, Observation};
use crate::text::{contains_seq, lines_of};

verus! {

/// The observation shows no defect: the ignore file mentions `target`, no
/// tracked file is a build output, the lab folder exists, the tool succeeded.
pub open spec fn is_clean(obs: Observation) -> bool {
    match obs {
        Observation::IgnoreFile(FileRead::Text(t)) => contains_seq(t@, "target"@),
        Observation::IgnoreFile(_) => false,
        Observation::TrackedFiles(ToolRun::Exited(x)) => x.success && forall|i: int|
            0 <= i < lines_of(x.stdout@).len() ==> !is_artifact(#[trigger] lines_of(x.stdout@)[i]),
        Observation::TrackedFiles(_) => false,
        Observation::LabFolder(exists) => exists,
        Observation::Cargo(ToolRun::Exited(x)) => x.success,
        Observation::Cargo(_) => false,
    }
}

/// No build output is found exactly when no entry is one.
proof fn lemma_no_artifacts(files: Seq<Seq<char>>)
    ensures
        artifacts_in(files).len() == 0 <==> forall|i: int|
            0 <= i < files.len() ==> !is_artifact(#[trigger] files[i]),
    decreases files.len(),
{
    if files.len() > 0 {
        lemma_no_artifacts(files.drop_last());
        if artifacts_in(files).len() == 0 {
            assert forall|i: int| 0 <= i < files.len() implies !is_artifact(#[trigger] files[i]) by {
                if i < files.len() - 1 {
                    assert(files.drop_last()[i] == files[i]);
                }
            }
        } else if forall|i: int| 0 <= i < files.len() ==> !is_artifact(#[trigger] files[i]) {
            assert(!is_artifact(files[files.len() - 1]));
            assert forall|i: int| 0 <= i < files.drop_last().len() implies !is_artifact(
                #[trigger] files.drop_last()[i],
            ) by {
                assert(files.drop_last()[i] == files[i]);
            }
        }
    }
}

/// A check records nothing exactly when its observation is clean.
proof fn lemma_check_clean(p: Paths, kind: CheckKind, obs: Observation)
    requires
        fits(kind, obs),
    ensures
        check_diag(p, kind, obs) is None <==> is_clean(obs),
{
    if let Observation::TrackedFiles(ToolRun::Exited(x)) = obs {
        lemma_no_artifacts(lines_of(x.stdout@));
    }
}

/// A run over a clean submission records nothing, succeeds, and exits with 0,
/// whichever checks it holds and in whichever order.
pub proof fn lemma_clean_submission_passes(p: Paths, kinds: Seq<CheckKind>, obs: Seq<Observation>)
    requires
        kinds.len() == obs.len(),
        forall|i: int| 0 <= i < kinds.len() ==> fits(kinds[i], obs[i]),
        forall|i: int| 0 <= i < obs.len() ==> is_clean(#[trigger] obs[i]),
    ensures
        pipeline_diags(p, kinds, obs) == Seq::<DiagView>::empty(),
        verdict(pipeline_diags(p, kinds, obs)) == Outcome::Success,
        verdict(pipeline_diags(p, kinds, obs)).code_of() == 0,
    decreases kinds.len(),
{
    if kinds.len() > 0 {
        let n = kinds.len() - 1;
        let rest = obs.take(n);
        assert forall|i: int| 0 <= i < n implies fits(kinds.drop_last()[i], rest[i]) by {
            assert(kinds.drop_last()[i] == kinds[i]);
            assert(rest[i] == obs[i]);
        }
        assert forall|i: int| 0 <= i < rest.len() implies is_clean(#[trigger] rest[i]) by {
            assert(rest[i] == obs[i]);
        }
        lemma_clean_submission_passes(p, kinds.drop_last(), rest);
        assert(is_clean(obs[n]));
        assert(fits(kinds[n], obs[n]));
        lemma_check_clean(p, kinds.last(), obs[n]);
        assert(pipeline_diags(p, kinds, obs) =~= Seq::<DiagView>::empty());
    }
}

/// The diagnostic of every check that finds a defect is recorded, whatever
/// the checks before it gave.
proof fn lemma_defect_recorded(p: Paths, kinds: Seq<CheckKind>, obs: Seq<Observation>, j: int)
    requires
        kinds.len() == obs.len(),
        0 <= j < kinds.len(),
        check_diag(p, kinds[j], obs[j]) is Some,
    ensures
        pipeline_diags(p, kinds, obs).contains(check_diag(p, kinds[j], obs[j])->0),
    decreases kinds.len(),
{
    let n = kinds.len() - 1;
    let prev = pipeline_diags(p, kinds.drop_last(), obs.take(n));
    let last = opt_seq(check_diag(p, kinds.last(), obs[n]));
    assert(pipeline_diags(p, kinds, obs) == prev + last);
    if j == n {
        assert((prev + last)[prev.len() as int] == check_diag(p, kinds[j], obs[j])->0);
    } else {
        assert(kinds.drop_last()[j] == kinds[j]);
        assert(obs.take(n)[j] == obs[j]);
        lemma_defect_recorded(p, kinds.drop_last(), obs.take(n), j);
        let k = choose|k: int| 0 <= k < prev.len() && prev[k] == check_diag(p, kinds[j], obs[j])->0;
        assert((prev + last)[k] == prev[k]);
    }
}

/// A run in which check `j` finds a defect records that check's diagnostic,
/// even where earlier checks failed too, and so fails and exits with 1.
pub proof fn lemma_defect_fails_run(
    p: Paths,
    kinds: Seq<CheckKind>,
    obs: Seq<Observation>,
    j: int,
)
    requires
        kinds.len() == obs.len(),
        forall|i: int| 0 <= i < kinds.len() ==> fits(kinds[i], obs[i]),
        0 <= j < kinds.len(),
        !is_clean(obs[j]),
    ensures
        check_diag(p, kinds[j], obs[j]) is Some,
        pipeline_diags(p, kinds, obs).contains(check_diag(p, kinds[j], obs[j])->0),
        pipeline_diags(p, kinds, obs).len() > 0,
        verdict(pipeline_diags(p, kinds, obs)) == Outcome::Failure,
        verdict(pipeline_diags(p, kinds, obs)).code_of() == 1,
{
    lemma_check_clean(p, kinds[j], obs[j]);
    lemma_defect_recorded(p, kinds, obs, j);
}

/// Running the checks again on an unchanged, clean submission adds nothing
/// to any collector and succeeds again, so two runs report the same, empty,
/// diagnostics.
pub proof fn lemma_rerun_unchanged(
    p: Paths,
    kinds: Seq<CheckKind>,
    obs: Seq<Observation>,
    found: Seq<DiagView>,
)
    requires
        kinds.len() == obs.len(),
        forall|i: int| 0 <= i < kinds.len() ==> fits(kinds[i], obs[i]),
        forall|i: int| 0 <= i < obs.len() ==> is_clean(#[trigger] obs[i]),
    ensures
        found + pipeline_diags(p, kinds, obs) == found,
        (found + pipeline_diags(p, kinds, obs)) + pipeline_diags(p, kinds, obs) == found,
        verdict(pipeline_diags(p, kinds, obs)) == Outcome::Success,
{
    lemma_clean_submission_passes(p, kinds, obs);
    assert(found + pipeline_diags(p, kinds, obs) =~= found);
}

} // verus!
