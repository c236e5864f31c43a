//! The course of one process through an update, as a machine: the
//! application that looks for an update and hands over to a helper, and the
//! helper that applies the update, retrying while the installed files are
//! still held, and starts the application again.
//!
//! The caller performs what the machine asks for and reports what happened.
use vstd::prelude::*;
use crate::update::launch::{LaunchError, LaunchMode};

verus! {

/// How often, and how patiently, the helper tries to replace the files.
#[derive(Clone, Copy, Debug, PartialEq, Eq, Structural)]
pub struct RetryPolicy {
    /// Attempts made before the helper gives up. At least one is made.
    pub max_attempts: u32,
    /// Pause between two attempts, in milliseconds.
    pub interval_millis: u64,
}

impl Default for RetryPolicy {
    /// Thirty attempts, a quarter of a second apart.
    fn default() -> (r: RetryPolicy)
        ensures
            r.max_attempts == 30,
            r.interval_millis == 250,
    {
        RetryPolicy { max_attempts: 30, interval_millis: 250 }
    }
}

/// Where a process stands.
#[derive(Clone, Copy, Debug, PartialEq, Eq, Structural)]
pub enum DispatchState {
    /// Just started; the arguments have not been looked at.
    Idle,
    /// The application is asking the feed.
    CheckingForUpdate,
    /// The application starts as usual.
    NoUpdateFound,
    /// A newer bundle has been downloaded.
    UpdateStaged,
    /// The helper runs; this process has nothing more to do.
    HelperSpawned,
    /// This process is the helper and has made no attempt yet.
    ApplyModeEntered,
    /// The helper has failed this many times and will try again.
    Retrying(u32),
    /// The files have been replaced.
    Swapped,
    /// The updated application runs.
    Relaunched,
    /// The helper leaves the installation as it is.
    GivingUp,
    /// The helper cannot go on: its arguments make no sense, or the
    /// updated application did not start.
    Aborted,
}

/// How one attempt to apply the bundle ended.
#[derive(Clone, Copy, Debug, PartialEq, Eq, Structural)]
pub enum AttemptOutcome {
    /// Every file has been replaced.
    Applied,
    /// The bundle could not be unpacked. Waiting does not mend that.
    ExtractionFailed,
    /// A file could not be replaced, most likely because it is still held.
    SwapFailed,
}

/// What the caller reports.
#[derive(Clone, Copy, Debug, PartialEq, Eq, Structural)]
pub enum DispatchEvent {
    /// The arguments mark this process as the helper.
    HelperRecognized,
    /// The arguments mark this process as the helper and make no sense.
    ArgumentsRejected,
    /// This process is the application; `look` says whether it is to look
    /// for an update.
    ApplicationRecognized { look: bool },
    /// A newer bundle has been downloaded.
    UpdateDownloaded,
    /// There is no update, or looking for one failed.
    NothingToApply,
    /// The helper has been started.
    HelperStarted,
    /// The helper could not be started.
    HelperNotStarted,
    /// An attempt to apply the bundle has ended.
    AttemptEnded(AttemptOutcome),
    /// The updated application has been started.
    ApplicationStarted,
    /// The updated application could not be started.
    ApplicationNotStarted,
}

/// What the caller is to do.
#[derive(Clone, Copy, Debug, PartialEq, Eq, Structural)]
pub enum DispatchAction {
    /// Decide the role of the process from its arguments.
    InspectArguments,
    /// Ask the feed and download the bundle of a newer release.
    LookForUpdate,
    /// Go on into the application.
    StartApplication,
    /// Copy the running executable and start the copy as the helper.
    SpawnHelper,
    /// Unpack the bundle and replace the files.
    Attempt,
    /// Wait, then unpack the bundle and replace the files.
    WaitThenAttempt { millis: u64 },
    /// Start the updated application with the arguments handed on.
    Relaunch,
    /// End the process.
    Exit { status: i32 },
}

/// What a state asks for.
pub open spec fn action_of(state: DispatchState, policy: RetryPolicy) -> DispatchAction {
    match state {
        DispatchState::Idle => DispatchAction::InspectArguments,
        DispatchState::CheckingForUpdate => DispatchAction::LookForUpdate,
        DispatchState::NoUpdateFound => DispatchAction::StartApplication,
        DispatchState::UpdateStaged => DispatchAction::SpawnHelper,
        DispatchState::HelperSpawned => DispatchAction::Exit { status: 0 },
        DispatchState::ApplyModeEntered => DispatchAction::Attempt,
        DispatchState::Retrying(_) => DispatchAction::WaitThenAttempt {
            millis: policy.interval_millis,
        },
        DispatchState::Swapped => DispatchAction::Relaunch,
        DispatchState::Relaunched => DispatchAction::Exit { status: 0 },
        DispatchState::GivingUp => DispatchAction::Exit { status: 0 },
        DispatchState::Aborted => DispatchAction::Exit { status: 1 },
    }
}

/// Attempts that have failed so far, for a state in which the helper is
/// about to make one.
pub open spec fn failed_attempts(state: DispatchState) -> Option<nat> {
    match state {
        DispatchState::ApplyModeEntered => Some(0),
        DispatchState::Retrying(n) => Some(n as nat),
        _ => None,
    }
}

/// The state after an attempt, `failed` attempts having failed before it.
/// Success leads on to the relaunch. A bundle that cannot be unpacked ends
/// the helper's work at once. A file that cannot be replaced leads to
/// another attempt while the policy allows one.
pub open spec fn after_attempt(failed: nat, outcome: AttemptOutcome, policy: RetryPolicy) -> DispatchState {
    match outcome {
        AttemptOutcome::Applied => DispatchState::Swapped,
        AttemptOutcome::ExtractionFailed => DispatchState::GivingUp,
        AttemptOutcome::SwapFailed => if failed + 1 < policy.max_attempts {
            DispatchState::Retrying((failed + 1) as u32)
        } else {
            DispatchState::GivingUp
        },
    }
}

/// The state that follows on an event; `None` where the event cannot occur
/// in the state.
pub open spec fn next_state(state: DispatchState, event: DispatchEvent, policy: RetryPolicy) -> Option<
    DispatchState,
> {
    match (state, event) {
        (DispatchState::Idle, DispatchEvent::HelperRecognized) => Some(
            DispatchState::ApplyModeEntered,
        ),
        (DispatchState::Idle, DispatchEvent::ArgumentsRejected) => Some(DispatchState::Aborted),
        (DispatchState::Idle, DispatchEvent::ApplicationRecognized { look }) => Some(
            if look {
                DispatchState::CheckingForUpdate
            } else {
                DispatchState::NoUpdateFound
            },
        ),
        (DispatchState::CheckingForUpdate, DispatchEvent::UpdateDownloaded) => Some(
            DispatchState::UpdateStaged,
        ),
        (DispatchState::CheckingForUpdate, DispatchEvent::NothingToApply) => Some(
            DispatchState::NoUpdateFound,
        ),
        (DispatchState::UpdateStaged, DispatchEvent::HelperStarted) => Some(
            DispatchState::HelperSpawned,
        ),
        (DispatchState::UpdateStaged, DispatchEvent::HelperNotStarted) => Some(
            DispatchState::NoUpdateFound,
        ),
        (DispatchState::ApplyModeEntered, DispatchEvent::AttemptEnded(outcome)) => Some(
            after_attempt(0, outcome, policy),
        ),
        (DispatchState::Retrying(n), DispatchEvent::AttemptEnded(outcome)) => Some(
            after_attempt(n as nat, outcome, policy),
        ),
        (DispatchState::Swapped, DispatchEvent::ApplicationStarted) => Some(
            DispatchState::Relaunched,
        ),
        (DispatchState::Swapped, DispatchEvent::ApplicationNotStarted) => Some(
            DispatchState::Aborted,
        ),
        _ => None,
    }
}

/// The event that the decision on the process's role amounts to.
pub open spec fn role_event(decision: Result<LaunchMode, LaunchError>) -> DispatchEvent {
    match decision {
        Ok(LaunchMode::ApplyUpdate(_)) => DispatchEvent::HelperRecognized,
        Ok(LaunchMode::CheckForUpdate) => DispatchEvent::ApplicationRecognized { look: true },
        Ok(LaunchMode::NormalStartup) => DispatchEvent::ApplicationRecognized { look: false },
        Err(_) => DispatchEvent::ArgumentsRejected,
    }
}

/// The state after a run of attempts, the outcomes given in their order.
/// Outcomes that come after the helper has stopped attempting count for
/// nothing.
pub open spec fn after_attempts(
    state: DispatchState,
    outcomes: Seq<AttemptOutcome>,
    policy: RetryPolicy,
) -> DispatchState
    decreases outcomes.len(),
{
    if outcomes.len() == 0 {
        state
    } else {
        match failed_attempts(state) {
            Some(failed) => after_attempts(
                after_attempt(failed, outcomes[0], policy),
                outcomes.drop_first(),
                policy,
            ),
            None => state,
        }
    }
}

/// `count` attempts that all failed to replace a file.
pub open spec fn held(count: nat) -> Seq<AttemptOutcome> {
    Seq::new(count, |i: int| AttemptOutcome::SwapFailed)
}

impl DispatchState {
    /// The state every process starts in.
    pub fn start() -> (r: DispatchState)
        ensures
            r == DispatchState::Idle,
    {
        DispatchState::Idle
    }

    /// What is to be done now.
    pub fn action(&self, policy: &RetryPolicy) -> (r: DispatchAction)
        ensures
            r == action_of(*self, *policy),
    {
        match self {
            DispatchState::Idle => DispatchAction::InspectArguments,
            DispatchState::CheckingForUpdate => DispatchAction::LookForUpdate,
            DispatchState::NoUpdateFound => DispatchAction::StartApplication,
            DispatchState::UpdateStaged => DispatchAction::SpawnHelper,
            DispatchState::HelperSpawned => DispatchAction::Exit { status: 0 },
            DispatchState::ApplyModeEntered => DispatchAction::Attempt,
            DispatchState::Retrying(_) => DispatchAction::WaitThenAttempt {
                millis: policy.interval_millis,
            },
            DispatchState::Swapped => DispatchAction::Relaunch,
            DispatchState::Relaunched => DispatchAction::Exit { status: 0 },
            DispatchState::GivingUp => DispatchAction::Exit { status: 0 },
            DispatchState::Aborted => DispatchAction::Exit { status: 1 },
        }
    }

    /// The state that follows on `event`, or `None` where the event cannot
    /// occur in this state.
    pub fn on_event(self, event: DispatchEvent, policy: &RetryPolicy) -> (r: Option<DispatchState>)
        ensures
            r == next_state(self, event, *policy),
    {
        match (self, event) {
            (DispatchState::Idle, DispatchEvent::HelperRecognized) => Some(
                DispatchState::ApplyModeEntered,
            ),
            (DispatchState::Idle, DispatchEvent::ArgumentsRejected) => Some(DispatchState::Aborted),
            (DispatchState::Idle, DispatchEvent::ApplicationRecognized { look }) => Some(
                if look {
                    DispatchState::CheckingForUpdate
                } else {
                    DispatchState::NoUpdateFound
                },
            ),
            (DispatchState::CheckingForUpdate, DispatchEvent::UpdateDownloaded) => Some(
                DispatchState::UpdateStaged,
            ),
            (DispatchState::CheckingForUpdate, DispatchEvent::NothingToApply) => Some(
                DispatchState::NoUpdateFound,
            ),
            (DispatchState::UpdateStaged, DispatchEvent::HelperStarted) => Some(
                DispatchState::HelperSpawned,
            ),
            (DispatchState::UpdateStaged, DispatchEvent::HelperNotStarted) => Some(
                DispatchState::NoUpdateFound,
            ),
            (DispatchState::ApplyModeEntered, DispatchEvent::AttemptEnded(outcome)) => Some(
                attempt_ended(0, outcome, policy),
            ),
            (DispatchState::Retrying(n), DispatchEvent::AttemptEnded(outcome)) => Some(
                attempt_ended(n, outcome, policy),
            ),
            (DispatchState::Swapped, DispatchEvent::ApplicationStarted) => Some(
                DispatchState::Relaunched,
            ),
            (DispatchState::Swapped, DispatchEvent::ApplicationNotStarted) => Some(
                DispatchState::Aborted,
            ),
            _ => None,
        }
    }
}

/// The state after an attempt, `failed` attempts having failed before it.
pub fn attempt_ended(failed: u32, outcome: AttemptOutcome, policy: &RetryPolicy) -> (r:
    DispatchState)
    ensures
        r == after_attempt(failed as nat, outcome, *policy),
{
    match outcome {
        AttemptOutcome::Applied => DispatchState::Swapped,
        AttemptOutcome::ExtractionFailed => DispatchState::GivingUp,
        AttemptOutcome::SwapFailed => if failed < policy.max_attempts && failed + 1
            < policy.max_attempts {
            DispatchState::Retrying(failed + 1)
        } else {
            DispatchState::GivingUp
        },
    }
}

/// The event that the decision on the process's role amounts to.
pub fn role_recognized(decision: &Result<LaunchMode, LaunchError>) -> (r: DispatchEvent)
    ensures
        r == role_event(*decision),
{
    match decision {
        Ok(LaunchMode::ApplyUpdate(_)) => DispatchEvent::HelperRecognized,
        Ok(LaunchMode::CheckForUpdate) => DispatchEvent::ApplicationRecognized { look: true },
        Ok(LaunchMode::NormalStartup) => DispatchEvent::ApplicationRecognized { look: false },
        Err(_) => DispatchEvent::ArgumentsRejected,
    }
}

/// Once the helper runs, the process that started it does nothing but end,
/// with success: no event leads it anywhere else.
pub proof fn spawning_process_only_exits(event: DispatchEvent, policy: RetryPolicy)
    ensures
        action_of(DispatchState::HelperSpawned, policy) == (DispatchAction::Exit { status: 0 }),
        next_state(DispatchState::HelperSpawned, event, policy) is None,
{
}

/// Every way through an update ends the process with success, but for a
/// helper that cannot go on.
pub proof fn exits_report_success(state: DispatchState, policy: RetryPolicy)
    ensures
        action_of(state, policy) matches DispatchAction::Exit { status } ==> (status == 0 <==> state
            != DispatchState::Aborted),
{
}

/// Files that are held for the first `count` attempts and free at the next
/// one are replaced at that attempt, provided the policy allows more than
/// `count` attempts.
pub proof fn released_files_are_swapped(count: nat, policy: RetryPolicy)
    requires
        count < policy.max_attempts,
    ensures
        after_attempts(
            DispatchState::ApplyModeEntered,
            held(count).push(AttemptOutcome::Applied),
            policy,
        ) == DispatchState::Swapped,
{
    lemma_held_then(DispatchState::ApplyModeEntered, 0, count, AttemptOutcome::Applied, policy);
}

/// Files that stay held make the helper give up after exactly as many
/// attempts as the policy allows, and never sooner.
pub proof fn held_files_end_in_giving_up(count: nat, policy: RetryPolicy)
    requires
        policy.max_attempts >= 1,
    ensures
        count >= policy.max_attempts ==> after_attempts(
            DispatchState::ApplyModeEntered,
            held(count),
            policy,
        ) == DispatchState::GivingUp,
        0 < count < policy.max_attempts ==> after_attempts(
            DispatchState::ApplyModeEntered,
            held(count),
            policy,
        ) == DispatchState::Retrying(count as u32),
    decreases count,
{
    if count > 0 {
        let fewer = (count - 1) as nat;
        assert(held(count) =~= held(fewer).push(AttemptOutcome::SwapFailed));
        if fewer < policy.max_attempts {
            lemma_held_then(
                DispatchState::ApplyModeEntered,
                0,
                fewer,
                AttemptOutcome::SwapFailed,
                policy,
            );
        } else {
            held_files_end_in_giving_up(fewer, policy);
            lemma_stopped_stays(DispatchState::ApplyModeEntered, held(fewer), seq![
                AttemptOutcome::SwapFailed,
            ], policy);
            assert(held(fewer) + seq![AttemptOutcome::SwapFailed] =~= held(count));
        }
    }
}

/// From a state with `failed` failures behind it, `more` further failures
/// and then `last` lead where `last` leads after `failed + more` failures.
proof fn lemma_held_then(
    state: DispatchState,
    failed: nat,
    more: nat,
    last: AttemptOutcome,
    policy: RetryPolicy,
)
    requires
        failed_attempts(state) == Some(failed),
        failed + more < policy.max_attempts,
    ensures
        after_attempts(state, held(more).push(last), policy) == after_attempt(
            failed + more,
            last,
            policy,
        ),
    decreases more,
{
    let outcomes = held(more).push(last);
    if more == 0 {
        assert(outcomes.drop_first() =~= Seq::<AttemptOutcome>::empty());
        assert(outcomes[0] == last);
    } else {
        assert(outcomes[0] == AttemptOutcome::SwapFailed);
        assert(outcomes.drop_first() =~= held((more - 1) as nat).push(last));
        let next = after_attempt(failed, AttemptOutcome::SwapFailed, policy);
        assert(next == DispatchState::Retrying((failed + 1) as u32));
        lemma_held_then(next, failed + 1, (more - 1) as nat, last, policy);
    }
}

/// Attempts made after the helper has stopped attempting change nothing.
proof fn lemma_stopped_stays(
    state: DispatchState,
    first: Seq<AttemptOutcome>,
    rest: Seq<AttemptOutcome>,
    policy: RetryPolicy,
)
    requires
        failed_attempts(after_attempts(state, first, policy)) is None,
    ensures
        after_attempts(state, first + rest, policy) == after_attempts(state, first, policy),
    decreases first.len(),
{
    if first.len() == 0 {
        assert(first + rest =~= rest);
        if rest.len() > 0 {
        }
    } else {
        assert((first + rest)[0] == first[0]);
        assert((first + rest).drop_first() =~= first.drop_first() + rest);
        match failed_attempts(state) {
            Some(failed) => {
                lemma_stopped_stays(
                    after_attempt(failed, first[0], policy),
                    first.drop_first(),
                    rest,
                    policy,
                );
            },
            None => {},
        }
    }
}

} // verus!
