use vstd::prelude::*;
use crate::bridge::{diagnostic_text, next_phase, phase_accepts, Bridge, Event, Phase, MAX_DIAGNOSTIC_CHARS};
use crate::error::{BridgeError, Ending};
use crate::text::{contains, decimal};

verus! {

/// Whether each event of `evs`, starting from phase `p`, answers the action
/// of the phase it arrives in.
pub open spec fn valid_run(p: Phase, evs: Seq<Event>) -> bool
    decreases evs.len(),
{
    evs.len() == 0 || (phase_accepts(p, evs[0]) && valid_run(next_phase(p, evs[0]), evs.drop_first()))
}

/// The phases a run passes through from `p`: `p`, then one more for each
/// event of `evs`.
pub open spec fn phases(p: Phase, evs: Seq<Event>) -> Seq<Phase>
    decreases evs.len(),
{
    if evs.len() == 0 {
        seq![p]
    } else {
        seq![p] + phases(next_phase(p, evs[0]), evs.drop_first())
    }
}

proof fn lemma_phase_at(p: Phase, evs: Seq<Event>, i: int)
    requires
        1 <= i <= evs.len(),
    ensures
        phases(p, evs)[i] == next_phase(phases(p, evs)[i - 1], evs[i - 1]),
        valid_run(p, evs) ==> phase_accepts(phases(p, evs)[i - 1], evs[i - 1]),
    decreases evs.len(),
{
    lemma_phases_shape(p, evs);
    let q = next_phase(p, evs[0]);
    let rest = evs.drop_first();
    lemma_phases_shape(q, rest);
    let ps = phases(p, evs);
    assert(ps[i] == phases(q, rest)[i - 1]);
    if i >= 2 {
        lemma_phase_at(q, rest, i - 1);
        assert(ps[i - 1] == phases(q, rest)[i - 2]);
        assert(evs[i - 1] == rest[i - 2]);
        if valid_run(p, evs) {
            assert(valid_run(q, rest));
        }
    }
}

proof fn lemma_entering(p: Phase, e: Event)
    requires
        phase_accepts(p, e),
    ensures
        next_phase(p, e) == Phase::Running ==> p == Phase::WritingInput && (e matches Event::Written(
            Ok(_),
        )),
        next_phase(p, e) == Phase::ReadingOutput ==> p == Phase::Running && (e matches Event::Exited {
            code: Some(0i32),
            ..
        }),
{
    match p {
        Phase::Running => {},
        Phase::ReadingOutput => {},
        Phase::WritingInput => {},
        _ => {},
    }
}

/// In every run the input file is written before the engine is launched, and
/// the engine has exited with success before its output file is read: the
/// run enters the launching phase only from a successful input write, and the
/// output-reading phase only from a successful exit.
pub proof fn lemma_write_launch_read_order(evs: Seq<Event>)
    requires
        valid_run(Phase::CheckingEntryPoint, evs),
    ensures
        ({
            let ps = phases(Phase::CheckingEntryPoint, evs);
            &&& forall|i: int|
                0 <= i <= evs.len() && #[trigger] ps[i] == Phase::Running ==> i >= 1 && ps[i - 1]
                    == Phase::WritingInput && (evs[i - 1] matches Event::Written(Ok(_)))
            &&& forall|i: int|
                0 <= i <= evs.len() && #[trigger] ps[i] == Phase::ReadingOutput ==> i >= 1 && ps[i
                    - 1] == Phase::Running && (evs[i - 1] matches Event::Exited { code: Some(0i32), .. })
        }),
{
    let ps = phases(Phase::CheckingEntryPoint, evs);
    lemma_phases_shape(Phase::CheckingEntryPoint, evs);
    assert forall|i: int| 0 <= i <= evs.len() && #[trigger] ps[i] == Phase::Running implies i >= 1
        && ps[i - 1] == Phase::WritingInput && (evs[i - 1] matches Event::Written(Ok(_))) by {
        if i >= 1 {
            lemma_phase_at(Phase::CheckingEntryPoint, evs, i);
            lemma_entering(ps[i - 1], evs[i - 1]);
        }
    }
    assert forall|i: int| 0 <= i <= evs.len() && #[trigger] ps[i] == Phase::ReadingOutput implies i
        >= 1 && ps[i - 1] == Phase::Running && (evs[i - 1] matches Event::Exited {
        code: Some(0i32),
        ..
    }) by {
        if i >= 1 {
            lemma_phase_at(Phase::CheckingEntryPoint, evs, i);
            lemma_entering(ps[i - 1], evs[i - 1]);
        }
    }
}

/// Whether no outcome has been decided yet in phase `p`.
pub open spec fn undecided(p: Phase) -> bool {
    !(p is CleaningUp) && !(p is Finished)
}

proof fn lemma_phases_shape(p: Phase, evs: Seq<Event>)
    ensures
        phases(p, evs).len() == evs.len() + 1,
        phases(p, evs)[0] == p,
    decreases evs.len(),
{
    if evs.len() > 0 {
        lemma_phases_shape(next_phase(p, evs[0]), evs.drop_first());
    }
}

proof fn lemma_cleanup_shape(p: Phase, evs: Seq<Event>)
    requires
        undecided(p),
        valid_run(p, evs),
    ensures
        ({
            let ps = phases(p, evs);
            let n = evs.len() as int;
            &&& forall|j: int| 0 <= j < n ==> !(#[trigger] ps[j] is Finished)
            &&& forall|j: int|
                0 <= j < n && (#[trigger] ps[j] is CleaningUp) ==> j == n - 1 && ps[n]
                    == Phase::Finished(ps[j]->CleaningUp_0)
            &&& ps[n] is Finished ==> n >= 1 && ps[n - 1] == Phase::CleaningUp(ps[n]->Finished_0)
        }),
    decreases evs.len(),
{
    lemma_phases_shape(p, evs);
    if evs.len() > 0 {
        let q = next_phase(p, evs[0]);
        let rest = evs.drop_first();
        let ps = phases(p, evs);
        let tail = phases(q, rest);
        assert(valid_run(q, rest));
        lemma_phases_shape(q, rest);
        assert(ps =~= seq![p] + tail);
        if undecided(q) {
            lemma_cleanup_shape(q, rest);
            assert forall|j: int| 1 <= j <= evs.len() implies ps[j] == tail[j - 1] by {}
        } else {
            assert(q is CleaningUp);
            if rest.len() > 0 {
                assert(phase_accepts(q, rest[0]));
                let r = next_phase(q, rest[0]);
                assert(r == Phase::Finished(q->CleaningUp_0));
                lemma_phases_shape(r, rest.drop_first());
                assert(valid_run(r, rest.drop_first()));
                if rest.drop_first().len() > 0 {
                    assert(!phase_accepts(r, rest.drop_first()[0]));
                }
                assert(rest.len() == 1);
                assert(ps[2] == r);
            }
        }
    }
}

/// Every run removes the three transient files exactly once, as the last
/// action before it hands out its outcome, whatever the outcome is: a run
/// that has finished was cleaning up one step before, in the same ending, and
/// at no other step; no run finishes before its last step.
pub proof fn lemma_cleanup_once_before_finish(evs: Seq<Event>)
    requires
        valid_run(Phase::CheckingEntryPoint, evs),
    ensures
        ({
            let ps = phases(Phase::CheckingEntryPoint, evs);
            let n = evs.len() as int;
            &&& ps.len() == n + 1
            &&& forall|j: int| 0 <= j < n ==> !(#[trigger] ps[j] is Finished)
            &&& ps[n] matches Phase::Finished(k) ==> {
                &&& n >= 1
                &&& ps[n - 1] == Phase::CleaningUp(k)
                &&& forall|j: int| 0 <= j < n - 1 ==> !(#[trigger] ps[j] is CleaningUp)
            }
        }),
{
    lemma_phases_shape(Phase::CheckingEntryPoint, evs);
    lemma_cleanup_shape(Phase::CheckingEntryPoint, evs);
}

/// Whether `p` is one of the two existence checks.
pub open spec fn checking(p: Phase) -> bool {
    p is CheckingEntryPoint || p is CheckingConfig
}

/// Whether `p` belongs to the missing-dependency ending.
pub open spec fn missing_dependency(p: Phase) -> bool {
    p == Phase::CleaningUp(Ending::MissingDependency) || p == Phase::Finished(
        Ending::MissingDependency,
    )
}

proof fn lemma_no_missing_dependency_later(p: Phase, evs: Seq<Event>)
    requires
        !checking(p),
        !missing_dependency(p),
        valid_run(p, evs),
    ensures
        forall|j: int| 0 <= j <= evs.len() ==> !missing_dependency(#[trigger] phases(p, evs)[j]),
    decreases evs.len(),
{
    lemma_phases_shape(p, evs);
    if evs.len() > 0 {
        let q = next_phase(p, evs[0]);
        let rest = evs.drop_first();
        assert(valid_run(q, rest));
        lemma_no_missing_dependency_later(q, rest);
        lemma_phases_shape(q, rest);
        let ps = phases(p, evs);
        assert forall|j: int| 1 <= j <= evs.len() implies ps[j] == phases(q, rest)[j - 1] by {}
    }
}

proof fn lemma_checks_precede(p: Phase, evs: Seq<Event>)
    requires
        checking(p),
        valid_run(p, evs),
        missing_dependency(phases(p, evs)[evs.len() as int]),
    ensures
        forall|j: int|
            0 <= j <= evs.len() ==> checking(#[trigger] phases(p, evs)[j]) || missing_dependency(
                phases(p, evs)[j],
            ),
    decreases evs.len(),
{
    lemma_phases_shape(p, evs);
    if evs.len() > 0 {
        let q = next_phase(p, evs[0]);
        let rest = evs.drop_first();
        let ps = phases(p, evs);
        assert(valid_run(q, rest));
        lemma_phases_shape(q, rest);
        assert forall|j: int| 1 <= j <= evs.len() implies ps[j] == phases(q, rest)[j - 1] by {}
        if checking(q) {
            lemma_checks_precede(q, rest);
        } else if missing_dependency(q) {
            if rest.len() > 0 {
                assert(phase_accepts(q, rest[0]));
                let r = next_phase(q, rest[0]);
                assert(valid_run(r, rest.drop_first()));
                assert(r == Phase::Finished(Ending::MissingDependency));
                lemma_phases_shape(r, rest.drop_first());
                if rest.drop_first().len() > 0 {
                    assert(!phase_accepts(r, rest.drop_first()[0]));
                }
            }
        } else {
            lemma_no_missing_dependency_later(q, rest);
        }
    }
}

/// A run that ends for a missing dependency never launches the engine: every
/// phase it passes through is one of the two existence checks or belongs to
/// that ending, so it never reaches the phase that launches.
pub proof fn lemma_missing_dependency_never_launches(evs: Seq<Event>)
    requires
        valid_run(Phase::CheckingEntryPoint, evs),
        missing_dependency(phases(Phase::CheckingEntryPoint, evs)[evs.len() as int]),
    ensures
        forall|j: int|
            0 <= j <= evs.len() ==> checking(#[trigger] phases(Phase::CheckingEntryPoint, evs)[j])
                || missing_dependency(phases(Phase::CheckingEntryPoint, evs)[j]),
        forall|j: int|
            0 <= j <= evs.len() ==> #[trigger] phases(Phase::CheckingEntryPoint, evs)[j]
                != Phase::Running,
{
    lemma_checks_precede(Phase::CheckingEntryPoint, evs);
    assert forall|j: int| 0 <= j <= evs.len() implies #[trigger] phases(
        Phase::CheckingEntryPoint,
        evs,
    )[j] != Phase::Running by {
        let x = phases(Phase::CheckingEntryPoint, evs)[j];
        assert(checking(x) || missing_dependency(x));
    }
}

/// When the engine exits with success and its output file reads as `text`,
/// the run decides on success with exactly `text`, and finishes in success
/// once the files are removed.
pub proof fn lemma_success_hands_out_output(
    b: Bridge,
    reading: Bridge,
    cleaning: Bridge,
    finished: Bridge,
    stdout: String,
    stderr: String,
    text: String,
)
    requires
        b.phase == Phase::Running,
        b.steps_to(Event::Exited { code: Some(0i32), stdout, stderr }, reading),
        reading.steps_to(Event::OutputRead(Ok(text)), cleaning),
        cleaning.steps_to(Event::Removed, finished),
    ensures
        reading.phase == Phase::ReadingOutput,
        cleaning.phase == Phase::CleaningUp(Ending::Success),
        cleaning.outcome == Some(Ok::<String, BridgeError>(text)),
        finished.phase == Phase::Finished(Ending::Success),
{
}

/// When the engine exits with the failure code `c`, the run decides on an
/// engine failure whose message holds the decimal code and the diagnostic:
/// the standard error, or the standard output when standard error is empty,
/// whole when it is at most `MAX_DIAGNOSTIC_CHARS` long and its tail of that
/// length otherwise.
pub proof fn lemma_engine_failure_reports(
    b: Bridge,
    failed: Bridge,
    c: i32,
    stdout: String,
    stderr: String,
)
    requires
        b.phase == Phase::Running,
        c != 0,
        b.steps_to(Event::Exited { code: Some(c), stdout, stderr }, failed),
    ensures
        failed.phase == Phase::CleaningUp(Ending::EngineFailure),
        failed.outcome matches Some(Err(err)) && {
            let m = err.spec_message();
            &&& (err matches BridgeError::EngineFailure { code, diagnostic } && code == Some(c)
                && diagnostic@ == diagnostic_text(stdout@, stderr@))
            &&& contains(m, decimal(c as int))
            &&& contains(m, diagnostic_text(stdout@, stderr@))
            &&& 0 < stderr@.len() <= MAX_DIAGNOSTIC_CHARS ==> contains(m, stderr@)
            &&& stderr@.len() == 0 && stdout@.len() <= MAX_DIAGNOSTIC_CHARS ==> contains(
                m,
                stdout@,
            )
        },
{
    let err = failed.outcome->0->Err_0;
    let m = err.spec_message();
    let head = "engine failed with exit code "@;
    let d = decimal(c as int);
    let diag = diagnostic_text(stdout@, stderr@);
    reveal_strlit(": ");
    assert(m == head + d + ": "@ + diag);
    let h = head.len() as int;
    assert(m.subrange(h, h + d.len()) =~= d);
    let at = h + d.len() + 2;
    assert(m.subrange(at, at + diag.len()) =~= diag);
}

} // verus!
