use alarm::protocol::{
    exists_reply, exists_request, frequency_reply, frequency_request, sleep_action, sleep_start,
    sleep_step, time_reply, time_request, CommandRequest, SleepAction, SleepEvent, SleepState,
    COMMAND_EXISTS, COMMAND_FREQUENCY, COMMAND_SET_RELATIVE, COMMAND_TIME, DRIVER_NUM,
    SUBSCRIBE_CALLBACK,
};
use alarm::time::{Hz, Milliseconds, Ticks};

/// A mock kernel: answers the frequency query, the subscribe and the
/// arm command with the given replies, and wakes the sleeper once per
/// entry of `wakes` (`true` means the alarm upcall populated the
/// cell). Returns the log of performed actions and the final outcome.
fn run_sleep(
    time: Milliseconds,
    freq: Result<u32, u32>,
    sub: Result<(), u32>,
    arm: Result<u32, u32>,
    wakes: &[bool],
) -> (Vec<SleepAction>, Result<(), u32>) {
    let mut state = sleep_start();
    let mut actions: Vec<SleepAction> = Vec::new();
    let mut wake_at: usize = 0;
    loop {
        let action = sleep_action(state);
        actions.push(action);
        let event = match action {
            SleepAction::IssueCommand(c) => {
                assert_eq!(c.driver, DRIVER_NUM);
                if c.command_id == COMMAND_FREQUENCY {
                    SleepEvent::CommandReply(freq)
                } else {
                    assert_eq!(c.command_id, COMMAND_SET_RELATIVE);
                    SleepEvent::CommandReply(arm)
                }
            }
            SleepAction::InstallSubscription { driver, slot } => {
                assert_eq!((driver, slot), (DRIVER_NUM, SUBSCRIBE_CALLBACK));
                SleepEvent::SubscribeReply(sub)
            }
            SleepAction::YieldWait => {
                let fired = wakes[wake_at];
                wake_at += 1;
                SleepEvent::Wake { fired }
            }
            SleepAction::RemoveSubscription { driver, slot } => {
                assert_eq!((driver, slot), (DRIVER_NUM, SUBSCRIBE_CALLBACK));
                SleepEvent::Unsubscribed
            }
            SleepAction::Finish(outcome) => return (actions, outcome),
        };
        state = sleep_step(time, state, event);
    }
}

/// The subscription the mock kernel observed installed must be removed
/// again before the protocol finished.
fn assert_no_leaked_subscription(actions: &[SleepAction]) {
    let installed = actions
        .iter()
        .any(|a| matches!(a, SleepAction::InstallSubscription { .. }));
    let removed = actions
        .iter()
        .any(|a| matches!(a, SleepAction::RemoveSubscription { .. }));
    if installed {
        assert!(removed);
    }
}

#[test]
fn frequency_query_success() {
    let c = frequency_request();
    assert_eq!(
        c,
        CommandRequest { driver: 0, command_id: COMMAND_FREQUENCY, arg0: 0, arg1: 0 }
    );
    assert_eq!(frequency_reply(Ok(1000)), Ok(Hz(1000)));
}

#[test]
fn frequency_query_failure_passes_the_code_through() {
    assert_eq!(frequency_reply(Err(5)), Err(5));
}

#[test]
fn exists_query() {
    let c = exists_request();
    assert_eq!(
        c,
        CommandRequest { driver: 0, command_id: COMMAND_EXISTS, arg0: 0, arg1: 0 }
    );
    assert_eq!(exists_reply(Ok(0)), Ok(()));
    assert_eq!(exists_reply(Err(2)), Err(2));
}

#[test]
fn time_query() {
    let c = time_request();
    assert_eq!(
        c,
        CommandRequest { driver: 0, command_id: COMMAND_TIME, arg0: 0, arg1: 0 }
    );
    assert_eq!(time_reply(Ok(123_456)), Ok(Ticks(123_456)));
    assert_eq!(time_reply(Err(11)), Err(11));
}

#[test]
fn sleep_one_millisecond_at_one_kilohertz_arms_one_tick() {
    let (actions, outcome) = run_sleep(Milliseconds(1), Ok(1000), Ok(()), Ok(77), &[true]);
    assert_eq!(outcome, Ok(()));
    let armed = CommandRequest { driver: 0, command_id: COMMAND_SET_RELATIVE, arg0: 1, arg1: 0 };
    assert!(actions.contains(&SleepAction::IssueCommand(armed)));
    assert_no_leaked_subscription(&actions);
}

#[test]
fn sleep_one_millisecond_at_ten_megahertz_arms_ten_thousand_ticks() {
    let (actions, outcome) = run_sleep(Milliseconds(1), Ok(10_000_000), Ok(()), Ok(0), &[true]);
    assert_eq!(outcome, Ok(()));
    let armed = CommandRequest {
        driver: 0,
        command_id: COMMAND_SET_RELATIVE,
        arg0: 10_000,
        arg1: 0,
    };
    assert!(actions.contains(&SleepAction::IssueCommand(armed)));
    assert_no_leaked_subscription(&actions);
}

#[test]
fn sleep_two_and_a_half_seconds_at_sixteen_kilohertz_arms_forty_thousand_ticks() {
    let (actions, outcome) = run_sleep(Milliseconds(2500), Ok(16_000), Ok(()), Ok(0), &[true]);
    assert_eq!(outcome, Ok(()));
    let armed = CommandRequest {
        driver: 0,
        command_id: COMMAND_SET_RELATIVE,
        arg0: 40_000,
        arg1: 0,
    };
    assert!(actions.contains(&SleepAction::IssueCommand(armed)));
    assert_no_leaked_subscription(&actions);
}

#[test]
fn spurious_wake_keeps_sleeping_until_the_alarm_fires() {
    let (actions, outcome) = run_sleep(Milliseconds(1), Ok(1000), Ok(()), Ok(0), &[false, true]);
    assert_eq!(outcome, Ok(()));
    let yields = actions
        .iter()
        .filter(|a| matches!(a, SleepAction::YieldWait))
        .count();
    assert_eq!(yields, 2);
    let finishes = actions
        .iter()
        .filter(|a| matches!(a, SleepAction::Finish(_)))
        .count();
    assert_eq!(finishes, 1);
    assert_no_leaked_subscription(&actions);
}

#[test]
fn arm_failure_returns_the_error_after_a_null_subscribe() {
    let (actions, outcome) = run_sleep(Milliseconds(1), Ok(1000), Ok(()), Err(9), &[]);
    assert_eq!(outcome, Err(9));
    // The subscription was installed, so the error path must remove it
    // before finishing.
    let install_at = actions
        .iter()
        .position(|a| matches!(a, SleepAction::InstallSubscription { .. }))
        .unwrap();
    let remove_at = actions
        .iter()
        .position(|a| {
            matches!(
                a,
                SleepAction::RemoveSubscription { driver: 0, slot: 0 }
            )
        })
        .unwrap();
    assert!(install_at < remove_at);
    assert_eq!(actions.last(), Some(&SleepAction::Finish(Err(9))));
}

#[test]
fn subscribe_failure_returns_the_error_with_nothing_to_remove() {
    let (actions, outcome) = run_sleep(Milliseconds(1), Ok(1000), Err(4), Ok(0), &[]);
    assert_eq!(outcome, Err(4));
    // The subscribe never succeeded: nothing was installed, so nothing
    // is removed on the way out.
    assert!(!actions
        .iter()
        .any(|a| matches!(a, SleepAction::RemoveSubscription { .. })));
    assert!(!actions.iter().any(|a| matches!(a, SleepAction::YieldWait)));
}

#[test]
fn frequency_failure_never_touches_the_subscription() {
    let (actions, outcome) = run_sleep(Milliseconds(1), Err(2), Ok(()), Ok(0), &[]);
    assert_eq!(outcome, Err(2));
    assert_eq!(actions.len(), 2);
    assert!(matches!(actions[0], SleepAction::IssueCommand(_)));
    assert_eq!(actions[1], SleepAction::Finish(Err(2)));
}

#[test]
fn an_event_that_does_not_answer_the_state_changes_nothing() {
    let s = sleep_step(Milliseconds(1), SleepState::QueryFrequency, SleepEvent::Unsubscribed);
    assert_eq!(s, SleepState::QueryFrequency);
    let w = sleep_step(
        Milliseconds(1),
        SleepState::Waiting,
        SleepEvent::SubscribeReply(Ok(())),
    );
    assert_eq!(w, SleepState::Waiting);
}

#[test]
fn a_sleep_stated_in_ticks_skips_the_conversion_scaling() {
    // Ticks convert to themselves: whatever the frequency reply, the
    // armed tick count is the one requested.
    let mut state = sleep_start();
    state = sleep_step(Ticks(321), state, SleepEvent::CommandReply(Ok(999_999)));
    assert_eq!(state, SleepState::Subscribing { ticks: 321 });
}
