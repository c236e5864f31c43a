use twitchdesk_desktop::update::dispatch::{
    attempt_ended, role_recognized, AttemptOutcome, DispatchAction, DispatchEvent, DispatchState,
    RetryPolicy,
};
use twitchdesk_desktop::update::launch::{decide_launch_mode, UpdateGate};

fn follow(start: DispatchState, events: &[DispatchEvent], policy: &RetryPolicy) -> DispatchState {
    let mut state = start;
    for event in events {
        state = state.on_event(*event, policy).expect("the event fits the state");
    }
    state
}

#[test]
fn default_policy_is_thirty_attempts_a_quarter_second_apart() {
    let policy = RetryPolicy::default();
    assert_eq!(policy.max_attempts, 30);
    assert_eq!(policy.interval_millis, 250);
}

#[test]
fn application_without_update_starts_as_usual() {
    let policy = RetryPolicy::default();
    let state = follow(
        DispatchState::start(),
        &[DispatchEvent::ApplicationRecognized { look: true }, DispatchEvent::NothingToApply],
        &policy,
    );
    assert_eq!(state, DispatchState::NoUpdateFound);
    assert_eq!(state.action(&policy), DispatchAction::StartApplication);
    let skipped = follow(
        DispatchState::start(),
        &[DispatchEvent::ApplicationRecognized { look: false }],
        &policy,
    );
    assert_eq!(skipped, DispatchState::NoUpdateFound);
}

#[test]
fn application_with_update_hands_over_and_exits() {
    let policy = RetryPolicy::default();
    let staged = follow(
        DispatchState::start(),
        &[DispatchEvent::ApplicationRecognized { look: true }, DispatchEvent::UpdateDownloaded],
        &policy,
    );
    assert_eq!(staged, DispatchState::UpdateStaged);
    assert_eq!(staged.action(&policy), DispatchAction::SpawnHelper);
    let spawned = staged.on_event(DispatchEvent::HelperStarted, &policy).unwrap();
    assert_eq!(spawned, DispatchState::HelperSpawned);
    assert_eq!(spawned.action(&policy), DispatchAction::Exit { status: 0 });
    assert_eq!(spawned.on_event(DispatchEvent::NothingToApply, &policy), None);
    assert_eq!(spawned.on_event(DispatchEvent::ApplicationStarted, &policy), None);
    let not_spawned = staged.on_event(DispatchEvent::HelperNotStarted, &policy).unwrap();
    assert_eq!(not_spawned, DispatchState::NoUpdateFound);
}

#[test]
fn files_held_for_three_attempts_are_swapped_at_the_fourth() {
    let policy = RetryPolicy::default();
    let mut state = DispatchState::start().on_event(DispatchEvent::HelperRecognized, &policy).unwrap();
    assert_eq!(state.action(&policy), DispatchAction::Attempt);
    let mut attempts = 0;
    let outcomes = [
        AttemptOutcome::SwapFailed,
        AttemptOutcome::SwapFailed,
        AttemptOutcome::SwapFailed,
        AttemptOutcome::Applied,
    ];
    for outcome in outcomes {
        attempts += 1;
        state = state.on_event(DispatchEvent::AttemptEnded(outcome), &policy).unwrap();
        if outcome == AttemptOutcome::SwapFailed {
            assert_eq!(state, DispatchState::Retrying(attempts));
            assert_eq!(state.action(&policy), DispatchAction::WaitThenAttempt { millis: 250 });
        }
    }
    assert_eq!(attempts, 4);
    assert_eq!(state, DispatchState::Swapped);
    assert_eq!(state.action(&policy), DispatchAction::Relaunch);
    let done = state.on_event(DispatchEvent::ApplicationStarted, &policy).unwrap();
    assert_eq!(done, DispatchState::Relaunched);
    assert_eq!(done.action(&policy), DispatchAction::Exit { status: 0 });
}

#[test]
fn files_that_stay_held_make_the_helper_give_up_after_thirty_attempts() {
    let policy = RetryPolicy::default();
    let mut state = DispatchState::ApplyModeEntered;
    let mut attempts = 0;
    while state != DispatchState::GivingUp {
        state = state
            .on_event(DispatchEvent::AttemptEnded(AttemptOutcome::SwapFailed), &policy)
            .unwrap();
        attempts += 1;
        assert!(attempts <= 30);
    }
    assert_eq!(attempts, 30);
    assert_eq!(state.action(&policy), DispatchAction::Exit { status: 0 });
    assert_eq!(
        state.on_event(DispatchEvent::AttemptEnded(AttemptOutcome::Applied), &policy),
        None
    );
}

#[test]
fn bundle_that_cannot_be_unpacked_ends_the_helper_with_success_status() {
    let policy = RetryPolicy::default();
    let state = follow(
        DispatchState::start(),
        &[
            DispatchEvent::HelperRecognized,
            DispatchEvent::AttemptEnded(AttemptOutcome::ExtractionFailed),
        ],
        &policy,
    );
    assert_eq!(state, DispatchState::GivingUp);
    assert_eq!(state.action(&policy), DispatchAction::Exit { status: 0 });
}

#[test]
fn a_single_attempt_policy_never_waits() {
    let policy = RetryPolicy { max_attempts: 1, interval_millis: 10 };
    assert_eq!(attempt_ended(0, AttemptOutcome::SwapFailed, &policy), DispatchState::GivingUp);
    assert_eq!(attempt_ended(0, AttemptOutcome::Applied, &policy), DispatchState::Swapped);
    let none = RetryPolicy { max_attempts: 0, interval_millis: 10 };
    assert_eq!(attempt_ended(0, AttemptOutcome::SwapFailed, &none), DispatchState::GivingUp);
    let wide = RetryPolicy { max_attempts: u32::MAX, interval_millis: 10 };
    assert_eq!(
        attempt_ended(u32::MAX - 2, AttemptOutcome::SwapFailed, &wide),
        DispatchState::Retrying(u32::MAX - 1)
    );
    assert_eq!(attempt_ended(u32::MAX - 1, AttemptOutcome::SwapFailed, &wide), DispatchState::GivingUp);
    assert_eq!(attempt_ended(u32::MAX, AttemptOutcome::SwapFailed, &wide), DispatchState::GivingUp);
}

#[test]
fn helper_that_cannot_go_on_exits_with_failure() {
    let policy = RetryPolicy::default();
    let rejected = DispatchState::start().on_event(DispatchEvent::ArgumentsRejected, &policy).unwrap();
    assert_eq!(rejected, DispatchState::Aborted);
    assert_eq!(rejected.action(&policy), DispatchAction::Exit { status: 1 });
    let unstarted = DispatchState::Swapped
        .on_event(DispatchEvent::ApplicationNotStarted, &policy)
        .unwrap();
    assert_eq!(unstarted, DispatchState::Aborted);
}

#[test]
fn events_that_do_not_fit_are_refused() {
    let policy = RetryPolicy::default();
    assert_eq!(DispatchState::Idle.on_event(DispatchEvent::UpdateDownloaded, &policy), None);
    assert_eq!(
        DispatchState::CheckingForUpdate.on_event(DispatchEvent::HelperStarted, &policy),
        None
    );
    assert_eq!(
        DispatchState::NoUpdateFound.on_event(DispatchEvent::NothingToApply, &policy),
        None
    );
    assert_eq!(DispatchState::Idle.action(&policy), DispatchAction::InspectArguments);
    assert_eq!(DispatchState::CheckingForUpdate.action(&policy), DispatchAction::LookForUpdate);
}

#[test]
fn role_follows_from_the_launch_mode() {
    let gate = UpdateGate { debug_build: false, disable_toggle: None, current_exe: Some("/h") };
    let to_args = |items: &[&str]| items.iter().map(|s| s.to_string()).collect::<Vec<String>>();
    let helper = decide_launch_mode(&to_args(&["h", "--apply-update", "b.zip"]), gate);
    assert_eq!(role_recognized(&helper), DispatchEvent::HelperRecognized);
    let broken = decide_launch_mode(&to_args(&["h", "--apply-update"]), gate);
    assert_eq!(role_recognized(&broken), DispatchEvent::ArgumentsRejected);
    let app = decide_launch_mode(&to_args(&["app"]), gate);
    assert_eq!(role_recognized(&app), DispatchEvent::ApplicationRecognized { look: true });
    let skipping = decide_launch_mode(&to_args(&["app", "--skip-update"]), gate);
    assert_eq!(role_recognized(&skipping), DispatchEvent::ApplicationRecognized { look: false });
}
