use vstd::prelude::*;
use crate::errors::{errno_description, errno_of, Errno, SystemResult, EEXIST, EINVAL};

verus! {

/// `mount(2)` flag: mount read-only.
pub const MS_RDONLY: u64 = 0x01;
/// `mount(2)` flag: ignore set-user-ID and set-group-ID bits.
pub const MS_NOSUID: u64 = 0x02;
/// `mount(2)` flag: disallow access to device special files.
pub const MS_NODEV: u64 = 0x04;
/// `mount(2)` flag: change the flags of an existing mount.
pub const MS_REMOUNT: u64 = 0x20;
/// `mount(2)` flag: create a bind mount.
pub const MS_BIND: u64 = 0x1000;
/// `mount(2)` flag: move an existing mount.
pub const MS_MOVE: u64 = 0x2000;
/// `mount(2)` flag: apply recursively to the whole subtree.
pub const MS_REC: u64 = 0x4000;
/// `mount(2)` flag: make the mount private.
pub const MS_PRIVATE: u64 = 0x040000;
/// `mount(2)` flag: update access times relative to modification times.
pub const MS_RELATIME: u64 = 0x200000;
/// `mount(2)` flag: keep timestamps in memory only.
pub const MS_LAZYTIME: u64 = 0x2000000;
/// `umount2(2)` flag: lazy unmount.
pub const MNT_DETACH: i32 = 0x2;

/// Flags that make the whole mount tree below `/` private.
pub const PRIVATE_ROOT_FLAGS: u64 = MS_REC | MS_PRIVATE;
/// Flags of the tmpfs mounted on `/run`.
pub const RUN_TMPFS_FLAGS: u64 = MS_LAZYTIME | MS_NODEV | MS_NOSUID | MS_RELATIME;
/// Flags of the overlay that becomes the new root.
pub const OVERLAY_ROOT_FLAGS: u64 = MS_RELATIME | MS_LAZYTIME;
/// Flags of the bind mount of the original root onto the lower directory.
pub const LOWER_BIND_FLAGS: u64 = MS_BIND;
/// Flags that turn the lower bind mount read-only.
pub const LOWER_READONLY_REMOUNT_FLAGS: u64 = MS_BIND | MS_REMOUNT | MS_RDONLY;
/// Flags of the mounts moved out of the old root.
pub const MOVE_MOUNT_FLAGS: u64 = MS_REC | MS_MOVE;
/// Flags of the unmount of the old root.
pub const OLDROOT_UMOUNT_FLAGS: i32 = MNT_DETACH;

/// Options of the overlay mount.
pub const OVERLAY_OPTIONS: &'static str = "lowerdir=/run/overlay/lower,upperdir=/run/overlay/upper,workdir=/run/overlay/work,redirect_dir=on,uuid=on,metacopy=on,volatile";

/// The overlay directories created under `/run`, with their modes, in creation order.
pub const OVERLAY_DIRS: [(&'static str, u32); 5] = [
    ("/run/overlay", 0o0700),
    ("/run/overlay/lower", 0o0700),
    ("/run/overlay/upper", 0o0755),
    ("/run/overlay/work", 0o0755),
    ("/run/overlay/merged", 0o0755),
];

/// The directories removed once the old root is gone, in removal order.
pub const UNUSED_DIRS: [&'static str; 2] = ["/oldroot", "/run/overlay/merged"];

/// The mounts moved out of the old root: source, destination, and whether a
/// failure to move it stops the root replacement.
pub const MOVE_MNT_PAIRS: [(&'static str, &'static str, bool); 2] = [
    ("/oldroot/run", "/run", true),
    ("/oldroot/dev", "/dev", false),
];

/// One step of the root replacement.
#[derive(Debug, Clone, Copy, PartialEq, Eq)]
pub enum RootAction {
    /// Make every mount below `/` private, recursively.
    MakeRootPrivate,
    /// Mount a tmpfs on `/run`.
    MountRunTmpfs,
    /// Create a directory with the given mode.
    Mkdir { path: &'static str, mode: u32 },
    /// Bind-mount the original root onto the overlay's lower directory.
    BindLower,
    /// Turn that bind mount read-only.
    RemountLowerReadonly,
    /// Mount the overlay on the merged directory.
    MountOverlay,
    /// Make the merged directory the new root, the old one going under `oldroot`.
    PivotRoot,
    /// Change the working directory to the new root.
    ChdirRoot,
    /// Move a mount out of the old root; `required` says whether a failure stops the replacement.
    MoveMount { src: &'static str, dst: &'static str, required: bool },
    /// Detach the old root.
    UmountOldRoot,
    /// Remove a directory that is no longer used.
    Rmdir(&'static str),
}

/// The root replacement, step by step, in the order in which it runs.
pub open spec fn spec_plan() -> Seq<RootAction> {
    seq![
        RootAction::MakeRootPrivate,
        RootAction::MountRunTmpfs,
        RootAction::Mkdir { path: "/run/overlay", mode: 0o0700 },
        RootAction::Mkdir { path: "/run/overlay/lower", mode: 0o0700 },
        RootAction::Mkdir { path: "/run/overlay/upper", mode: 0o0755 },
        RootAction::Mkdir { path: "/run/overlay/work", mode: 0o0755 },
        RootAction::Mkdir { path: "/run/overlay/merged", mode: 0o0755 },
        RootAction::BindLower,
        RootAction::RemountLowerReadonly,
        RootAction::MountOverlay,
        RootAction::Mkdir { path: "/run/overlay/merged/oldroot", mode: 0o0700 },
        RootAction::PivotRoot,
        RootAction::ChdirRoot,
        RootAction::MoveMount { src: "/oldroot/run", dst: "/run", required: true },
        RootAction::MoveMount { src: "/oldroot/dev", dst: "/dev", required: false },
        RootAction::UmountOldRoot,
        RootAction::Rmdir("/oldroot"),
        RootAction::Rmdir("/run/overlay/merged"),
    ]
}

/// The number of steps of the root replacement.
pub const ROOT_REPLACEMENT_STEPS: usize = 18;

/// Builds the root replacement plan.
pub fn root_replacement_plan() -> (plan: Vec<RootAction>)
    ensures
        plan@ == spec_plan(),
        plan@.len() == ROOT_REPLACEMENT_STEPS,
{
    let mut plan: Vec<RootAction> = Vec::new();
    plan.push(RootAction::MakeRootPrivate);
    plan.push(RootAction::MountRunTmpfs);
    plan.push(RootAction::Mkdir { path: "/run/overlay", mode: 0o0700 });
    plan.push(RootAction::Mkdir { path: "/run/overlay/lower", mode: 0o0700 });
    plan.push(RootAction::Mkdir { path: "/run/overlay/upper", mode: 0o0755 });
    plan.push(RootAction::Mkdir { path: "/run/overlay/work", mode: 0o0755 });
    plan.push(RootAction::Mkdir { path: "/run/overlay/merged", mode: 0o0755 });
    plan.push(RootAction::BindLower);
    plan.push(RootAction::RemountLowerReadonly);
    plan.push(RootAction::MountOverlay);
    plan.push(RootAction::Mkdir { path: "/run/overlay/merged/oldroot", mode: 0o0700 });
    plan.push(RootAction::PivotRoot);
    plan.push(RootAction::ChdirRoot);
    plan.push(RootAction::MoveMount { src: "/oldroot/run", dst: "/run", required: true });
    plan.push(RootAction::MoveMount { src: "/oldroot/dev", dst: "/dev", required: false });
    plan.push(RootAction::UmountOldRoot);
    plan.push(RootAction::Rmdir("/oldroot"));
    plan.push(RootAction::Rmdir("/run/overlay/merged"));
    assert(plan@ =~= spec_plan());
    plan
}

/// What the root replacement does after trying to move a mount.
#[derive(Debug, Clone, Copy, PartialEq, Eq, Structural)]
pub enum MoveMountDecision {
    Continue,
    Fail,
}

/// The decision after moving a mount: a move that succeeded, a move that is
/// only best effort, and a required move refused with `EINVAL` (nothing mounted
/// at the source) let the replacement go on; any other failure stops it.
pub open spec fn spec_move_mount_decision(result: SystemResult, required: bool) -> MoveMountDecision {
    match result {
        Ok(_) => MoveMountDecision::Continue,
        Err(e) => if !required || e.0 == EINVAL {
            MoveMountDecision::Continue
        } else {
            MoveMountDecision::Fail
        },
    }
}

/// Decides whether the outcome of moving a mount lets the replacement go on.
pub fn classify_move_mount_result(result: &SystemResult, required: bool) -> (d: MoveMountDecision)
    ensures
        d == spec_move_mount_decision(*result, required),
{
    match result {
        Ok(_) => MoveMountDecision::Continue,
        Err(e) => {
            if !required || e.0 == EINVAL {
                MoveMountDecision::Continue
            } else {
                MoveMountDecision::Fail
            }
        },
    }
}

/// What the program reports after carrying out a step: the result of the
/// system call, and whether the step's path is a directory once the call
/// returned (the program looks only for `Mkdir` steps, and reports `false`
/// for the others).
#[derive(Debug, Clone, Copy, PartialEq, Eq)]
pub struct StepOutcome {
    pub result: SystemResult,
    pub existing_directory: bool,
}

impl StepOutcome {
    /// The outcome of a step whose path is not looked at.
    pub fn of(result: SystemResult) -> (o: StepOutcome)
        ensures
            o == (StepOutcome { result, existing_directory: false }),
    {
        StepOutcome { result, existing_directory: false }
    }
}

/// Whether the replacement goes on after `action` had the outcome `outcome`.
/// Like `mkdir -p`, creating a directory that is already there goes on; so
/// does a move that `spec_move_mount_decision` lets go on. Any other step
/// goes on exactly when its system call succeeded.
pub open spec fn action_accepts(action: RootAction, outcome: StepOutcome) -> bool {
    match action {
        RootAction::Mkdir { .. } => outcome.result is Ok || (errno_of(outcome.result).0 == EEXIST
            && outcome.existing_directory),
        RootAction::MoveMount { required, .. } => spec_move_mount_decision(outcome.result, required)
            == MoveMountDecision::Continue,
        _ => outcome.result is Ok,
    }
}

/// What the error message says failed when `action` stops the replacement.
pub open spec fn failure_context(action: RootAction) -> Seq<char> {
    match action {
        RootAction::MakeRootPrivate => "remount \"/\" with private option failed"@,
        RootAction::MountRunTmpfs => "mount \"/run\" failed"@,
        RootAction::Mkdir { path, .. } => "mkdir \""@ + path@ + "\" failed"@,
        RootAction::BindLower => "mount \"/run/overlay/lower\" failed"@,
        RootAction::RemountLowerReadonly => "remount \"/run/overlay/lower\" readonly failed"@,
        RootAction::MountOverlay => "mount \"/run/overlay/merged\" failed"@,
        RootAction::PivotRoot => "pivot_root failed"@,
        RootAction::ChdirRoot => "chdir \"/\" failed"@,
        RootAction::MoveMount { src, .. } => "moving mountpoint \""@ + src@ + "\"  failed"@,
        RootAction::UmountOldRoot => "umount mountpoint \"/oldroot\"  failed"@,
        RootAction::Rmdir(path) => "remove \""@ + path@ + "\" failed"@,
    }
}

/// Why a step of the root replacement stopped it: what failed, and the error
/// number the system call reported.
#[derive(Debug, PartialEq, Eq)]
pub struct RootActionError {
    pub context: String,
    pub errno: Errno,
}

impl Clone for RootActionError {
    fn clone(&self) -> (r: Self)
        ensures
            r == *self,
    {
        RootActionError { context: self.context.clone(), errno: self.errno }
    }
}

impl RootActionError {
    /// The full message: the context, a colon, and `description`, the text
    /// that describes the error number.
    pub fn message(&self, description: &str) -> (m: String)
        ensures
            m@ == self.context@ + ": "@ + description@,
    {
        let mut m = self.context.clone();
        m.append(": ");
        m.append(description);
        m
    }

    /// The full message, the error number being described by the C library
    /// (see `errno_description`): the context, a colon, and that description.
    pub fn report(&self) -> (m: String)
        ensures
            exists|description: Seq<char>| m@ == self.context@ + ": "@ + description,
    {
        let description = errno_description(self.errno);
        self.message(description.as_str())
    }
}

/// Builds `head + middle + tail`.
fn join3(head: &str, middle: &str, tail: &str) -> (s: String)
    ensures
        s@ == head@ + middle@ + tail@,
{
    let mut s = String::from_str(head);
    s.append(middle);
    s.append(tail);
    s
}

/// The context of the error reported when `action` fails.
fn action_failure_context(action: RootAction) -> (c: String)
    ensures
        c@ == failure_context(action),
{
    match action {
        RootAction::MakeRootPrivate => String::from_str("remount \"/\" with private option failed"),
        RootAction::MountRunTmpfs => String::from_str("mount \"/run\" failed"),
        RootAction::Mkdir { path, .. } => join3("mkdir \"", path, "\" failed"),
        RootAction::BindLower => String::from_str("mount \"/run/overlay/lower\" failed"),
        RootAction::RemountLowerReadonly => String::from_str("remount \"/run/overlay/lower\" readonly failed"),
        RootAction::MountOverlay => String::from_str("mount \"/run/overlay/merged\" failed"),
        RootAction::PivotRoot => String::from_str("pivot_root failed"),
        RootAction::ChdirRoot => String::from_str("chdir \"/\" failed"),
        RootAction::MoveMount { src, .. } => join3("moving mountpoint \"", src, "\"  failed"),
        RootAction::UmountOldRoot => String::from_str("umount mountpoint \"/oldroot\"  failed"),
        RootAction::Rmdir(path) => join3("remove \"", path, "\" failed"),
    }
}

/// Decides what the outcome of the system call that carries out `action`
/// (see `root_action_syscall`) means for the root replacement: `Ok` when it
/// goes on, otherwise the error that stops it.
pub fn execute_root_action(action: RootAction, outcome: StepOutcome) -> (r: Result<(), RootActionError>)
    ensures
        r is Ok <==> action_accepts(action, outcome),
        r matches Err(e) ==> e.context@ == failure_context(action) && e.errno == errno_of(outcome.result)
            && outcome.result == Err::<(), Errno>(e.errno),
{
    let accepted = match action {
        RootAction::Mkdir { .. } => match outcome.result {
            Ok(()) => true,
            Err(e) => e.0 == EEXIST && outcome.existing_directory,
        },
        RootAction::MoveMount { required, .. } => match classify_move_mount_result(&outcome.result, required) {
            MoveMountDecision::Continue => true,
            MoveMountDecision::Fail => false,
        },
        _ => outcome.result.is_ok(),
    };
    if accepted {
        Ok(())
    } else {
        match outcome.result {
            Err(e) => Err(RootActionError { context: action_failure_context(action), errno: e }),
            Ok(_) => Ok(()),
        }
    }
}

/// Where a root replacement stands: how many steps went through, and the
/// failure that stopped it, if any (its context and error number).
pub struct RootProgress {
    pub completed: nat,
    pub failure: Option<(Seq<char>, Errno)>,
}

/// The progress before any step has run.
pub open spec fn initial_progress() -> RootProgress {
    RootProgress { completed: 0, failure: None }
}

/// Whether the replacement still waits for the outcome of a step.
pub open spec fn is_running(p: RootProgress) -> bool {
    p.failure is None && p.completed < spec_plan().len()
}

/// The progress after the step now due had the outcome `outcome`: it goes
/// through, or the replacement stops with that step's failure.
pub open spec fn advance(p: RootProgress, outcome: StepOutcome) -> RootProgress {
    let action = spec_plan()[p.completed as int];
    if action_accepts(action, outcome) {
        RootProgress { completed: p.completed + 1, failure: None }
    } else {
        RootProgress { completed: p.completed, failure: Some((failure_context(action), errno_of(outcome.result))) }
    }
}

/// The progress after the outcomes `outcomes` were reported one after the
/// other, those that come once the replacement has ended being ignored.
pub open spec fn replay(outcomes: Seq<StepOutcome>) -> RootProgress
    decreases outcomes.len(),
{
    if outcomes.len() == 0 {
        initial_progress()
    } else {
        let p = replay(outcomes.drop_last());
        if is_running(p) {
            advance(p, outcomes.last())
        } else {
            p
        }
    }
}

/// A root replacement under way: the plan, the number of steps that went
/// through, and the error that stopped it, if any.
pub struct RootReplacement {
    plan: Vec<RootAction>,
    completed: usize,
    failure: Option<RootActionError>,
}

impl RootReplacement {
    /// Where this replacement stands.
    pub closed spec fn progress(&self) -> RootProgress {
        RootProgress {
            completed: self.completed as nat,
            failure: match self.failure {
                None => None,
                Some(e) => Some((e.context@, e.errno)),
            },
        }
    }

    /// The state is one that the functions below build.
    pub closed spec fn wf(&self) -> bool {
        &&& self.plan@ == spec_plan()
        &&& self.completed <= spec_plan().len()
        &&& self.failure is Some ==> self.completed < spec_plan().len()
    }

    /// A replacement that has not started.
    pub fn new() -> (r: RootReplacement)
        ensures
            r.wf(),
            r.progress() == initial_progress(),
    {
        RootReplacement { plan: root_replacement_plan(), completed: 0, failure: None }
    }

    /// The step whose system call is to be made next, if the replacement is
    /// still running.
    pub fn next_action(&self) -> (a: Option<RootAction>)
        requires
            self.wf(),
        ensures
            is_running(self.progress()) ==> a == Some(spec_plan()[self.progress().completed as int]),
            !is_running(self.progress()) ==> a is None,
    {
        if self.failure.is_none() && self.completed < self.plan.len() {
            Some(self.plan[self.completed])
        } else {
            None
        }
    }

    /// Whether every step went through.
    pub fn succeeded(&self) -> (b: bool)
        requires
            self.wf(),
        ensures
            b == (self.progress().failure is None && self.progress().completed == spec_plan().len()),
    {
        self.failure.is_none() && self.completed == self.plan.len()
    }
}

/// Reports the outcome of the step that `state.next_action()` gave, and
/// decides: `None` while steps remain, `Some(Ok(()))` once the last step went
/// through, `Some(Err(e))` when this step stops the replacement with `e`.
pub fn replace_root(state: &mut RootReplacement, outcome: StepOutcome) -> (r: Option<Result<(), RootActionError>>)
    requires
        old(state).wf(),
        is_running(old(state).progress()),
    ensures
        final(state).wf(),
        final(state).progress() == advance(old(state).progress(), outcome),
        match r {
            None => is_running(final(state).progress()),
            Some(Ok(())) => final(state).progress().failure is None
                && final(state).progress().completed == spec_plan().len(),
            Some(Err(e)) => final(state).progress().failure == Some((e.context@, e.errno)),
        },
{
    let action = state.plan[state.completed];
    match execute_root_action(action, outcome) {
        Ok(()) => {
            state.completed = state.completed + 1;
            assert(state.plan@.len() == spec_plan().len());
            if state.completed == state.plan.len() {
                Some(Ok(()))
            } else {
                None
            }
        },
        Err(e) => {
            let reported = e.clone();
            state.failure = Some(e);
            Some(Err(reported))
        },
    }
}

/// Whether the first `k` outcomes are all accepted by the steps they answer.
pub open spec fn accepted_prefix(outcomes: Seq<StepOutcome>, k: int) -> bool {
    forall|i: int| 0 <= i < k ==> #[trigger] action_accepts(spec_plan()[i], outcomes[i])
}

/// The number of steps that the outcomes `outcomes` can answer.
pub open spec fn answered(outcomes: Seq<StepOutcome>) -> nat {
    if outcomes.len() < spec_plan().len() {
        outcomes.len()
    } else {
        spec_plan().len()
    }
}

/// Law: the steps run in the order of the plan and the replacement stops at
/// the first step whose outcome it does not accept. When every answered step
/// was accepted, they all went through and nothing failed; otherwise the
/// replacement stands at the first refused step, with that step's failure.
pub proof fn lemma_replay_stops_at_first_refusal(outcomes: Seq<StepOutcome>)
    ensures
        accepted_prefix(outcomes, answered(outcomes) as int) ==> replay(outcomes) == (RootProgress {
            completed: answered(outcomes),
            failure: None,
        }),
        forall|k: int|
            0 <= k < answered(outcomes) && accepted_prefix(outcomes, k) && !action_accepts(
                spec_plan()[k],
                #[trigger] outcomes[k],
            ) ==> replay(outcomes) == (RootProgress {
                completed: k as nat,
                failure: Some((failure_context(spec_plan()[k]), errno_of(outcomes[k].result))),
            }),
    decreases outcomes.len(),
{
    if outcomes.len() > 0 {
        let prev = outcomes.drop_last();
        lemma_replay_stops_at_first_refusal(prev);
        let n = outcomes.len() - 1;
        assert forall|i: int| 0 <= i < n implies prev[i] == outcomes[i] by {}
        assert forall|k: int| 0 <= k <= n implies (accepted_prefix(prev, k) <==> accepted_prefix(outcomes, k)) by {
            if accepted_prefix(prev, k) {
                assert forall|i: int| 0 <= i < k implies #[trigger] action_accepts(spec_plan()[i], outcomes[i]) by {
                    assert(prev[i] == outcomes[i]);
                    assert(action_accepts(spec_plan()[i], prev[i]));
                }
            }
            if accepted_prefix(outcomes, k) {
                assert forall|i: int| 0 <= i < k implies #[trigger] action_accepts(spec_plan()[i], prev[i]) by {
                    assert(prev[i] == outcomes[i]);
                    assert(action_accepts(spec_plan()[i], outcomes[i]));
                }
            }
        }
        assert forall|k: int|
            0 <= k < answered(outcomes) && accepted_prefix(outcomes, k) && !action_accepts(
                spec_plan()[k],
                #[trigger] outcomes[k],
            ) implies replay(outcomes) == (RootProgress {
                completed: k as nat,
                failure: Some((failure_context(spec_plan()[k]), errno_of(outcomes[k].result))),
            }) by {
            if k < n && k < answered(prev) {
                assert(accepted_prefix(prev, k));
                assert(prev[k] == outcomes[k]);
                assert(!action_accepts(spec_plan()[k], prev[k]));
            } else {
                assert(k == n);
                assert(answered(prev) == n);
                assert(accepted_prefix(prev, n));
            }
        }
        if accepted_prefix(outcomes, answered(outcomes) as int) {
            assert(accepted_prefix(prev, answered(prev) as int));
        }
    }
}

/// Law: the plan follows the layout constants. It creates the overlay
/// directories of `OVERLAY_DIRS` in their order and with their modes, moves
/// the mounts of `MOVE_MNT_PAIRS` in their order, and ends by removing the
/// directories of `UNUSED_DIRS` in their order.
pub proof fn lemma_plan_follows_layout()
    ensures
        forall|i: int| 0 <= i < 5 ==> #[trigger] spec_plan()[2 + i] == (RootAction::Mkdir {
            path: OVERLAY_DIRS@[i].0,
            mode: OVERLAY_DIRS@[i].1,
        }),
        forall|i: int| 0 <= i < 2 ==> #[trigger] spec_plan()[13 + i] == (RootAction::MoveMount {
            src: MOVE_MNT_PAIRS@[i].0,
            dst: MOVE_MNT_PAIRS@[i].1,
            required: MOVE_MNT_PAIRS@[i].2,
        }),
        forall|i: int| 0 <= i < 2 ==> #[trigger] spec_plan()[16 + i] == RootAction::Rmdir(UNUSED_DIRS@[i]),
{
}

/// Law: creating a directory goes on when the call succeeds or the path is
/// already a directory, as `mkdir -p` does; moving a mount that is only best
/// effort never stops the replacement; a required move stops it exactly when
/// it fails with an error other than `EINVAL`. Every other step stops it
/// exactly when its system call fails.
pub proof fn lemma_step_policy(
    path: &'static str,
    mode: u32,
    src: &'static str,
    dst: &'static str,
    action: RootAction,
    outcome: StepOutcome,
)
    ensures
        action_accepts(RootAction::Mkdir { path, mode }, outcome) <==> (outcome.result is Ok || (
        outcome.result == Err::<(), Errno>(Errno(EEXIST)) && outcome.existing_directory)),
        action_accepts(RootAction::MoveMount { src, dst, required: false }, outcome),
        action_accepts(RootAction::MoveMount { src, dst, required: true }, outcome) <==> (
        outcome.result is Ok || errno_of(outcome.result).0 == EINVAL),
        !(action is MoveMount) && !(action is Mkdir) ==> (action_accepts(action, outcome)
            <==> outcome.result is Ok),
{
}

} // verus!
