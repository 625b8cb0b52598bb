use crate::digest::sha256_of;
use crate::retry::{decide, state_wf, RetryPolicy, RetryState, RetryStep};
use vstd::prelude::*;

verus! {

/// The step of a replacement pass that is under way.
#[derive(Clone, Copy, Debug, PartialEq, Eq, Structural)]
pub enum Stage {
    /// Download the genuine tool to the original path.
    Fetch,
    /// Look up the path of the running executable.
    LocateSelf,
    /// Copy the running executable onto the impersonated path.
    CopySelf,
    /// Lower the integrity level of the original file.
    SetLevel,
    /// The pass is over.
    Done,
}

/// The outside work that the caller performs for the current stage.
#[derive(Clone, Copy, Debug, PartialEq, Eq, Structural)]
pub enum ReplaceAction {
    Fetch,
    LocateSelf,
    CopySelf,
    SetIntegrityLevel,
}

/// A step whose attempts ran out: how many were made, and the last cause.
#[derive(Clone, Debug, PartialEq, Eq)]
pub struct Failure {
    pub attempts: u32,
    pub cause: String,
}

/// The step that failed a replacement pass.
#[derive(Clone, Debug, PartialEq, Eq)]
pub enum ReplaceError {
    Fetch(Failure),
    LocateSelf(Failure),
    CopySelf(Failure),
    SetIntegrityLevel(Failure),
}

/// What the caller does after reporting the outcome of an action.
#[derive(Debug, PartialEq, Eq)]
pub enum PassStep {
    /// Perform this action next.
    Perform(ReplaceAction),
    /// Wait this many milliseconds, then perform the same action again.
    RetryAfter(u64),
    /// The pass is over, with this outcome.
    Finished(Result<(), ReplaceError>),
}

/// One run of "ensure the impersonation is correct".
#[derive(Clone, Copy, Debug, PartialEq, Eq, Structural)]
pub struct ReplacePass {
    pub stage: Stage,
    pub retry: RetryState,
}

pub open spec fn stage_policy(stage: Stage) -> RetryPolicy {
    match stage {
        Stage::Fetch => RetryPolicy { max_attempts: 3, delay_ms: 1000 },
        Stage::LocateSelf => RetryPolicy { max_attempts: 3, delay_ms: 50 },
        Stage::CopySelf => RetryPolicy { max_attempts: 10, delay_ms: 100 },
        _ => RetryPolicy { max_attempts: 3, delay_ms: 1000 },
    }
}

pub open spec fn next_stage(stage: Stage) -> Stage {
    match stage {
        Stage::Fetch => Stage::LocateSelf,
        Stage::LocateSelf => Stage::CopySelf,
        Stage::CopySelf => Stage::SetLevel,
        _ => Stage::Done,
    }
}

pub open spec fn action_of(stage: Stage) -> ReplaceAction {
    match stage {
        Stage::Fetch => ReplaceAction::Fetch,
        Stage::LocateSelf => ReplaceAction::LocateSelf,
        Stage::CopySelf => ReplaceAction::CopySelf,
        _ => ReplaceAction::SetIntegrityLevel,
    }
}

pub open spec fn error_of(stage: Stage, f: Failure) -> ReplaceError {
    match stage {
        Stage::Fetch => ReplaceError::Fetch(f),
        Stage::LocateSelf => ReplaceError::LocateSelf(f),
        Stage::CopySelf => ReplaceError::CopySelf(f),
        _ => ReplaceError::SetIntegrityLevel(f),
    }
}

pub open spec fn first_stage(original_exists: bool, force_download: bool) -> Stage {
    if !original_exists || force_download {
        Stage::Fetch
    } else {
        Stage::LocateSelf
    }
}

impl ReplacePass {
    pub open spec fn wf(self) -> bool {
        self.stage != Stage::Done && state_wf(stage_policy(self.stage), self.retry)
    }
}

/// The pass and the step that follow the outcome of the current action.
pub open spec fn advance_spec(p: ReplacePass, outcome: Result<(), String>) -> (ReplacePass, PassStep) {
    match decide(stage_policy(p.stage), p.retry.attempts as nat, outcome) {
        RetryStep::Succeeded(_) => {
            let s = next_stage(p.stage);
            let step = if s == Stage::Done {
                PassStep::Finished(Ok(()))
            } else {
                PassStep::Perform(action_of(s))
            };
            (ReplacePass { stage: s, retry: RetryState { attempts: 0 } }, step)
        },
        RetryStep::RetryAfter(d) => (
            ReplacePass { stage: p.stage, retry: RetryState { attempts: (p.retry.attempts + 1) as u32 } },
            PassStep::RetryAfter(d),
        ),
        RetryStep::Exhausted { attempts, last } => (
            ReplacePass { stage: Stage::Done, retry: RetryState { attempts: 0 } },
            PassStep::Finished(Err(error_of(p.stage, Failure { attempts, cause: last }))),
        ),
    }
}

fn policy_for(stage: Stage) -> (r: RetryPolicy)
    ensures
        r == stage_policy(stage),
{
    match stage {
        Stage::Fetch => RetryPolicy::network_fetch(),
        Stage::LocateSelf => RetryPolicy::self_lookup(),
        Stage::CopySelf => RetryPolicy::file_copy(),
        _ => RetryPolicy::integrity_change(),
    }
}

fn action_for(stage: Stage) -> (r: ReplaceAction)
    ensures
        r == action_of(stage),
{
    match stage {
        Stage::Fetch => ReplaceAction::Fetch,
        Stage::LocateSelf => ReplaceAction::LocateSelf,
        Stage::CopySelf => ReplaceAction::CopySelf,
        _ => ReplaceAction::SetIntegrityLevel,
    }
}

fn next_for(stage: Stage) -> (r: Stage)
    ensures
        r == next_stage(stage),
{
    match stage {
        Stage::Fetch => Stage::LocateSelf,
        Stage::LocateSelf => Stage::CopySelf,
        Stage::CopySelf => Stage::SetLevel,
        _ => Stage::Done,
    }
}

fn error_for(stage: Stage, f: Failure) -> (r: ReplaceError)
    ensures
        r == error_of(stage, f),
{
    match stage {
        Stage::Fetch => ReplaceError::Fetch(f),
        Stage::LocateSelf => ReplaceError::LocateSelf(f),
        Stage::CopySelf => ReplaceError::CopySelf(f),
        _ => ReplaceError::SetIntegrityLevel(f),
    }
}

/// Starts a replacement pass. The genuine tool is downloaded first when it is
/// absent or a fresh download is forced; otherwise the pass starts with the
/// self-copy.
pub fn replace(original_exists: bool, force_download: bool) -> (r: ReplacePass)
    ensures
        r.stage == first_stage(original_exists, force_download),
        r.retry.attempts == 0,
        r.wf(),
{
    let stage = if !original_exists || force_download {
        Stage::Fetch
    } else {
        Stage::LocateSelf
    };
    ReplacePass { stage, retry: RetryState::new() }
}

impl ReplacePass {
    /// The outside work for the current stage.
    pub fn action(&self) -> (r: ReplaceAction)
        ensures
            r == action_of(self.stage),
    {
        action_for(self.stage)
    }

    /// Reports the outcome of the current action and moves the pass on.
    pub fn advance(&mut self, outcome: Result<(), String>) -> (r: PassStep)
        requires
            old(self).wf(),
        ensures
            (*final(self), r) == advance_spec(*old(self), outcome),
            r is Finished <==> final(self).stage == Stage::Done,
            final(self).stage != Stage::Done ==> final(self).wf(),
    {
        let policy = policy_for(self.stage);
        let stage = self.stage;
        match self.retry.record(policy, outcome) {
            RetryStep::Succeeded(_) => {
                let s = next_for(stage);
                self.stage = s;
                self.retry = RetryState::new();
                if s == Stage::Done {
                    PassStep::Finished(Ok(()))
                } else {
                    PassStep::Perform(action_for(s))
                }
            },
            RetryStep::RetryAfter(d) => PassStep::RetryAfter(d),
            RetryStep::Exhausted { attempts, last } => {
                self.stage = Stage::Done;
                self.retry = RetryState::new();
                PassStep::Finished(Err(error_for(stage, Failure { attempts, cause: last })))
            },
        }
    }
}

/// Reports the outcome of the self-copy (the lookup of the running
/// executable, then the copy onto the impersonated path) and moves the pass on.
pub fn copy_self_to_vrchat_tools_dir(pass: &mut ReplacePass, outcome: Result<(), String>) -> (r: PassStep)
    requires
        old(pass).wf(),
        old(pass).stage == Stage::LocateSelf || old(pass).stage == Stage::CopySelf,
    ensures
        (*final(pass), r) == advance_spec(*old(pass), outcome),
        final(pass).stage != Stage::Done ==> final(pass).wf(),
{
    pass.advance(outcome)
}

/// What a replacement pass acts on: whether the genuine tool is present, its
/// integrity label, the bytes in the impersonated slot and the running image.
pub struct FsModel {
    pub original_present: bool,
    pub level_lowered: bool,
    pub impersonated: Seq<u8>,
    pub own_image: Seq<u8>,
}

/// The effect of the action of `stage` on the files, given whether it succeeded.
/// A fetch deletes the old copy first, so a failed fetch leaves none.
pub open spec fn fs_effect(fs: FsModel, stage: Stage, ok: bool) -> FsModel {
    match stage {
        Stage::Fetch => FsModel { original_present: ok, ..fs },
        Stage::CopySelf => if ok {
            FsModel { impersonated: fs.own_image, ..fs }
        } else {
            fs
        },
        Stage::SetLevel => if ok {
            FsModel { level_lowered: true, ..fs }
        } else {
            fs
        },
        _ => fs,
    }
}

/// Runs a pass on the outcomes `outs`, in order, until it finishes or they
/// run out: the files afterwards, the outcome if the pass finished, and the
/// number of fetch attempts made.
pub open spec fn run(p: ReplacePass, fs: FsModel, outs: Seq<Result<(), String>>) -> (
    FsModel,
    Option<Result<(), ReplaceError>>,
    nat,
)
    decreases outs.len(),
{
    if outs.len() == 0 || p.stage == Stage::Done {
        (fs, None, 0)
    } else {
        let (p2, step) = advance_spec(p, outs[0]);
        let fs2 = fs_effect(fs, p.stage, outs[0] is Ok);
        let fetched: nat = if p.stage == Stage::Fetch { 1 } else { 0 };
        match step {
            PassStep::Finished(res) => (fs2, Some(res), fetched),
            _ => {
                let (fs3, res, n) = run(p2, fs2, outs.drop_first());
                (fs3, res, n + fetched)
            },
        }
    }
}

proof fn lemma_run_success(p: ReplacePass, fs: FsModel, outs: Seq<Result<(), String>>)
    requires
        p.stage == Stage::SetLevel ==> fs.impersonated == fs.own_image,
    ensures
        run(p, fs, outs).1 == Some(Ok::<(), ReplaceError>(())) ==> run(p, fs, outs).0.impersonated
            == run(p, fs, outs).0.own_image && run(p, fs, outs).0.level_lowered,
        run(p, fs, outs).0.own_image == fs.own_image,
        p.stage != Stage::Fetch ==> run(p, fs, outs).2 == 0,
        p.stage != Stage::Fetch ==> run(p, fs, outs).0.original_present == fs.original_present,
    decreases outs.len(),
{
    if outs.len() == 0 || p.stage == Stage::Done {
    } else {
        let (p2, step) = advance_spec(p, outs[0]);
        let fs2 = fs_effect(fs, p.stage, outs[0] is Ok);
        match step {
            PassStep::Finished(res) => {},
            _ => {
                assert(p2.stage == Stage::SetLevel ==> fs2.impersonated == fs2.own_image);
                assert(p.stage != Stage::Fetch ==> p2.stage != Stage::Fetch);
                lemma_run_success(p2, fs2, outs.drop_first());
            },
        }
    }
}

/// After a replacement pass that succeeds, with no outside writer during the
/// pass, the impersonated slot has the digest of the running image and the
/// genuine tool's integrity label is lowered.
pub proof fn lemma_successful_pass_is_consistent(
    original_exists: bool,
    force_download: bool,
    fs: FsModel,
    outs: Seq<Result<(), String>>,
)
    requires
        fs.original_present == original_exists,
    ensures
        ({
            let p = ReplacePass { stage: first_stage(original_exists, force_download), retry: RetryState { attempts: 0 } };
            let (after, res, _) = run(p, fs, outs);
            res == Some(Ok::<(), ReplaceError>(())) ==> sha256_of(after.impersonated) == sha256_of(after.own_image)
                && after.level_lowered
        }),
{
    let p = ReplacePass { stage: first_stage(original_exists, force_download), retry: RetryState { attempts: 0 } };
    lemma_run_success(p, fs, outs);
}

/// Two passes without forced download, one after the other, on a directory
/// that holds the genuine tool: neither fetches, and when both succeed the
/// impersonated slot has the same digest after each.
pub proof fn lemma_replace_idempotent(
    fs: FsModel,
    first: Seq<Result<(), String>>,
    second: Seq<Result<(), String>>,
)
    requires
        fs.original_present,
    ensures
        ({
            let p1 = ReplacePass { stage: first_stage(fs.original_present, false), retry: RetryState { attempts: 0 } };
            let (fs1, r1, n1) = run(p1, fs, first);
            let p2 = ReplacePass { stage: first_stage(fs1.original_present, false), retry: RetryState { attempts: 0 } };
            let (fs2, r2, n2) = run(p2, fs1, second);
            &&& n1 == 0
            &&& n2 == 0
            &&& fs1.original_present && fs2.original_present
            &&& (r1 == Some(Ok::<(), ReplaceError>(())) && r2 == Some(Ok::<(), ReplaceError>(())))
                ==> sha256_of(fs1.impersonated) == sha256_of(fs2.impersonated)
        }),
{
    let p1 = ReplacePass { stage: first_stage(fs.original_present, false), retry: RetryState { attempts: 0 } };
    lemma_run_success(p1, fs, first);
    let (fs1, r1, n1) = run(p1, fs, first);
    let p2 = ReplacePass { stage: first_stage(fs1.original_present, false), retry: RetryState { attempts: 0 } };
    lemma_run_success(p2, fs1, second);
}

} // verus!
