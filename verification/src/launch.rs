use vstd::prelude::*;
use crate::errors::{errno_of, Errno, SystemResult, EACCES, ENOENT, ENOEXEC, ENOTDIR};

verus! {

/// The programs tried, in this order, as the real init.
pub const INIT_CANDIDATES: [&'static str; 3] = ["/sbin/init", "/usr/sbin/init", "/usr/lib/systemd/systemd"];

/// The exit status of a successful run.
pub const EXIT_SUCCESS: i32 = 0;
/// The exit status of a failed run.
pub const EXIT_FAILURE: i32 = 1;

/// Whether an `execv(2)` failure means the candidate is missing or unusable,
/// so that the next candidate is to be tried.
pub open spec fn spec_should_try_next_init(error: Errno) -> bool {
    error.0 == ENOENT || error.0 == EACCES || error.0 == ENOEXEC || error.0 == ENOTDIR
}

/// Decides whether, after `execv(2)` failed with `error`, the next candidate is tried.
pub fn should_try_next_init(error: Errno) -> (b: bool)
    ensures
        b == spec_should_try_next_init(error),
{
    error.0 == ENOENT || error.0 == EACCES || error.0 == ENOEXEC || error.0 == ENOTDIR
}

/// How handing off to the real init ended.
#[derive(Debug, Clone, Copy, PartialEq, Eq, Structural)]
pub enum LaunchOutcome {
    /// `execv(2)` reported success.
    Started,
    /// A candidate failed in a way that is not retried.
    Failed(Errno),
    /// Every candidate failed in a way that is retried.
    Exhausted,
}

/// Where the hand-off stands: how many candidates were tried, and how it ended, if it did.
pub struct LaunchProgress {
    pub tried: nat,
    pub outcome: Option<LaunchOutcome>,
}

/// The progress before any candidate has been tried.
pub open spec fn initial_launch() -> LaunchProgress {
    LaunchProgress { tried: 0, outcome: None }
}

/// Whether the hand-off still waits for the outcome of a candidate.
pub open spec fn is_launching(p: LaunchProgress) -> bool {
    p.outcome is None && p.tried < INIT_CANDIDATES@.len()
}

/// The progress after the candidate now due had the outcome `result`.
pub open spec fn launch_step(p: LaunchProgress, result: SystemResult) -> LaunchProgress {
    match result {
        Ok(_) => LaunchProgress { tried: p.tried + 1, outcome: Some(LaunchOutcome::Started) },
        Err(e) => if !spec_should_try_next_init(e) {
            LaunchProgress { tried: p.tried + 1, outcome: Some(LaunchOutcome::Failed(e)) }
        } else if p.tried + 1 == INIT_CANDIDATES@.len() {
            LaunchProgress { tried: p.tried + 1, outcome: Some(LaunchOutcome::Exhausted) }
        } else {
            LaunchProgress { tried: p.tried + 1, outcome: None }
        },
    }
}

/// The progress after the results `results` were reported one after the
/// other, those that come once the hand-off has ended being ignored.
pub open spec fn launch_replay(results: Seq<SystemResult>) -> LaunchProgress
    decreases results.len(),
{
    if results.len() == 0 {
        initial_launch()
    } else {
        let p = launch_replay(results.drop_last());
        if is_launching(p) {
            launch_step(p, results.last())
        } else {
            p
        }
    }
}

/// The hand-off to the real init: the candidates are tried one after the other.
pub struct InitLauncher {
    tried: usize,
    outcome: Option<LaunchOutcome>,
}

impl InitLauncher {
    /// Where this hand-off stands.
    pub closed spec fn progress(&self) -> LaunchProgress {
        LaunchProgress { tried: self.tried as nat, outcome: self.outcome }
    }

    /// The state is one that the functions below build.
    pub closed spec fn wf(&self) -> bool {
        &&& self.tried <= INIT_CANDIDATES@.len()
        &&& self.outcome is None ==> self.tried < INIT_CANDIDATES@.len()
    }

    /// A hand-off that has not tried any candidate.
    pub fn new() -> (l: InitLauncher)
        ensures
            l.wf(),
            l.progress() == initial_launch(),
    {
        InitLauncher { tried: 0, outcome: None }
    }

    /// The candidate to execute next, if the hand-off still runs.
    pub fn next_candidate(&self) -> (c: Option<&'static str>)
        requires
            self.wf(),
        ensures
            is_launching(self.progress()) ==> c == Some(INIT_CANDIDATES@[self.progress().tried as int]),
            !is_launching(self.progress()) ==> c is None,
    {
        if self.outcome.is_none() && self.tried < INIT_CANDIDATES.len() {
            Some(INIT_CANDIDATES[self.tried])
        } else {
            None
        }
    }

    /// Reports what `execv(2)` gave for the candidate that `next_candidate`
    /// named, and decides: `None` when the next candidate is to be tried,
    /// otherwise how the hand-off ended.
    pub fn record_exec_result(&mut self, result: SystemResult) -> (r: Option<LaunchOutcome>)
        requires
            old(self).wf(),
            is_launching(old(self).progress()),
        ensures
            final(self).wf(),
            final(self).progress() == launch_step(old(self).progress(), result),
            r == final(self).progress().outcome,
    {
        self.tried = self.tried + 1;
        let outcome = match result {
            Ok(()) => Some(LaunchOutcome::Started),
            Err(e) => if !should_try_next_init(e) {
                Some(LaunchOutcome::Failed(e))
            } else if self.tried == INIT_CANDIDATES.len() {
                Some(LaunchOutcome::Exhausted)
            } else {
                None
            },
        };
        self.outcome = outcome;
        outcome
    }
}

/// The exit status once the hand-off has ended.
pub fn exit_status(outcome: LaunchOutcome) -> (status: i32)
    ensures
        status == (if outcome == LaunchOutcome::Started { EXIT_SUCCESS } else { EXIT_FAILURE }),
{
    match outcome {
        LaunchOutcome::Started => EXIT_SUCCESS,
        _ => EXIT_FAILURE,
    }
}

/// Whether `result` is a failure after which the next candidate is tried.
pub open spec fn is_retried(result: SystemResult) -> bool {
    result is Err && spec_should_try_next_init(errno_of(result))
}

/// Whether the first `k` results are all failures after which the next candidate is tried.
pub open spec fn retried_prefix(results: Seq<SystemResult>, k: int) -> bool {
    forall|i: int| 0 <= i < k ==> #[trigger] is_retried(results[i])
}

/// The number of candidates that the results `results` can answer.
pub open spec fn launch_answered(results: Seq<SystemResult>) -> nat {
    if results.len() < INIT_CANDIDATES@.len() {
        results.len()
    } else {
        INIT_CANDIDATES@.len()
    }
}

/// How the hand-off ends on the result of the candidate that stops it.
pub open spec fn final_outcome(result: SystemResult) -> LaunchOutcome {
    match result {
        Ok(_) => LaunchOutcome::Started,
        Err(e) => LaunchOutcome::Failed(e),
    }
}

/// Law: the candidates are tried in their order, and the hand-off stops at the
/// first one that starts or fails in a way that is not retried. When every
/// answered candidate failed in a way that is retried, the hand-off goes on,
/// and it ends as exhausted once all of them have been tried.
pub proof fn lemma_launch_stops_at_first_final_result(results: Seq<SystemResult>)
    ensures
        retried_prefix(results, launch_answered(results) as int) ==> launch_replay(results) == (
        LaunchProgress {
            tried: launch_answered(results),
            outcome: if launch_answered(results) == INIT_CANDIDATES@.len() {
                Some(LaunchOutcome::Exhausted)
            } else {
                None
            },
        }),
        forall|k: int|
            0 <= k < launch_answered(results) && retried_prefix(results, k) && !is_retried(
                #[trigger] results[k],
            ) ==> launch_replay(results) == (LaunchProgress {
                tried: (k + 1) as nat,
                outcome: Some(final_outcome(results[k])),
            }),
    decreases results.len(),
{
    if results.len() > 0 {
        let prev = results.drop_last();
        lemma_launch_stops_at_first_final_result(prev);
        let n = results.len() - 1;
        assert forall|i: int| 0 <= i < n implies prev[i] == results[i] by {}
        assert forall|k: int| 0 <= k <= n implies (retried_prefix(prev, k) <==> retried_prefix(results, k)) by {
            if retried_prefix(prev, k) {
                assert forall|i: int| 0 <= i < k implies #[trigger] is_retried(results[i]) by {
                    assert(prev[i] == results[i]);
                    assert(is_retried(prev[i]));
                }
            }
            if retried_prefix(results, k) {
                assert forall|i: int| 0 <= i < k implies #[trigger] is_retried(prev[i]) by {
                    assert(prev[i] == results[i]);
                    assert(is_retried(results[i]));
                }
            }
        }
        assert forall|k: int|
            0 <= k < launch_answered(results) && retried_prefix(results, k) && !is_retried(
                #[trigger] results[k],
            ) implies launch_replay(results) == (LaunchProgress {
                tried: (k + 1) as nat,
                outcome: Some(final_outcome(results[k])),
            }) by {
            if k < n && k < launch_answered(prev) {
                assert(retried_prefix(prev, k));
                assert(prev[k] == results[k]);
                assert(!is_retried(prev[k]));
            } else {
                assert(k == n);
                assert(launch_answered(prev) == n);
                assert(retried_prefix(prev, n));
            }
        }
        if retried_prefix(results, launch_answered(results) as int) {
            assert(retried_prefix(prev, launch_answered(prev) as int));
            if launch_answered(prev) < launch_answered(results) {
                assert(is_retried(results[n]));
            }
        }
    }
}

/// Law: after an `execv(2)` failure the next candidate is tried exactly when
/// the error number is ENOENT (2), EACCES (13), ENOEXEC (8) or ENOTDIR (20);
/// any other failure ends the hand-off as failed with that error.
pub proof fn lemma_retry_policy(error: Errno, p: LaunchProgress)
    ensures
        spec_should_try_next_init(error) <==> (error.0 == 2 || error.0 == 13 || error.0 == 8 || error.0 == 20),
        !(error.0 == 2 || error.0 == 13 || error.0 == 8 || error.0 == 20) ==> launch_step(p, Err(error))
            == (LaunchProgress { tried: p.tried + 1, outcome: Some(LaunchOutcome::Failed(error)) }),
        (error.0 == 2 || error.0 == 13 || error.0 == 8 || error.0 == 20) && p.tried + 1 < 3 ==> launch_step(
            p,
            Err(error),
        ) == (LaunchProgress { tried: p.tried + 1, outcome: None }),
        launch_step(p, Ok(())) == (LaunchProgress { tried: p.tried + 1, outcome: Some(LaunchOutcome::Started) }),
{
}

} // verus!
