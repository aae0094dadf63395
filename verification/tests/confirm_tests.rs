use hmy_web3::confirm::{
    receipt_after_wait, receipt_block_number, ConfirmationWait, WaitAction, WaitEvent, WaitPhase,
};
use hmy_web3::error::Error;
use hmy_web3::types::{TransactionReceipt, H256};

fn hash(byte: u8) -> H256 {
    H256::new(vec![byte; 32])
}

/// Drives the machine over a whole event sequence and returns every action
/// it directed, starting with the one from `start`.
fn drive(depth: u64, events: Vec<WaitEvent>) -> (ConfirmationWait, Vec<WaitAction>) {
    let (mut state, first) = ConfirmationWait::start(depth);
    let mut actions = vec![first];
    for ev in events {
        let (next, action) = state.step(ev);
        state = next;
        actions.push(action);
    }
    (state, actions)
}

fn releases(actions: &[WaitAction]) -> usize {
    actions
        .iter()
        .filter(|a| matches!(a, WaitAction::Finish { release_filter: true }))
        .count()
}

#[test]
fn depth_zero_succeeds_without_any_stream_item() {
    let (state, actions) = drive(
        0,
        vec![WaitEvent::Checked(Some(100)), WaitEvent::Height(100)],
    );
    assert_eq!(state.phase, WaitPhase::Complete);
    assert_eq!(
        actions,
        vec![
            WaitAction::RunCheck,
            WaitAction::FetchHeight,
            WaitAction::Finish { release_filter: false },
        ]
    );
    // No filter, so nothing to release and no tick was ever awaited.
    assert!(!actions.iter().any(|a| matches!(a, WaitAction::AwaitTick)));
    assert!(!actions.iter().any(|a| matches!(a, WaitAction::CreateFilter)));
}

#[test]
fn depth_three_loops_until_buried() {
    // The filter's first three items pass unchecked; the check then answers
    // nothing twice, finds the event at height 50 while the chain stands at
    // 52 (too shallow for depth 3), and succeeds once the chain reaches 53.
    let (state, actions) = drive(
        3,
        vec![
            WaitEvent::FilterCreated,
            WaitEvent::Tick,
            WaitEvent::Tick,
            WaitEvent::Tick,
            WaitEvent::Tick,
            WaitEvent::Checked(None),
            WaitEvent::Tick,
            WaitEvent::Checked(None),
            WaitEvent::Tick,
            WaitEvent::Checked(Some(50)),
            WaitEvent::Height(52),
            WaitEvent::Tick,
            WaitEvent::Checked(Some(50)),
            WaitEvent::Height(53),
        ],
    );
    assert_eq!(state.phase, WaitPhase::Complete);
    assert_eq!(
        *actions.last().unwrap(),
        WaitAction::Finish { release_filter: true }
    );
    // 52 < 50 + 3 kept the wait looping rather than completing.
    assert_eq!(actions[11], WaitAction::AwaitTick);
    assert_eq!(releases(&actions), 1);
}

#[test]
fn successful_wait_releases_the_filter_exactly_once() {
    let (state, actions) = drive(
        1,
        vec![
            WaitEvent::FilterCreated,
            WaitEvent::Tick,
            WaitEvent::Tick,
            WaitEvent::Checked(Some(7)),
            WaitEvent::Height(8),
        ],
    );
    assert_eq!(state.phase, WaitPhase::Complete);
    assert_eq!(releases(&actions), 1);
}

#[test]
fn failed_wait_releases_the_filter_exactly_once() {
    let (state, actions) = drive(
        2,
        vec![
            WaitEvent::FilterCreated,
            WaitEvent::Tick,
            WaitEvent::StreamFailed(Error::Transport("connection reset".to_string())),
        ],
    );
    assert_eq!(
        state.phase,
        WaitPhase::Failed(Error::Transport("connection reset".to_string()))
    );
    assert_eq!(releases(&actions), 1);
}

#[test]
fn failed_registration_releases_nothing() {
    let (state, actions) = drive(
        2,
        vec![WaitEvent::FilterFailed(Error::Transport("refused".to_string()))],
    );
    assert_eq!(
        state.phase,
        WaitPhase::Failed(Error::Transport("refused".to_string()))
    );
    assert_eq!(releases(&actions), 0);
    assert_eq!(
        *actions.last().unwrap(),
        WaitAction::Finish { release_filter: false }
    );
}

#[test]
fn stream_error_surfaces_and_is_never_a_confirmation() {
    let (state, actions) = drive(
        1,
        vec![
            WaitEvent::FilterCreated,
            WaitEvent::Tick,
            WaitEvent::Tick,
            WaitEvent::Checked(Some(10)),
            WaitEvent::HeightFailed(Error::Decode("bad height".to_string())),
        ],
    );
    assert_eq!(
        state.phase,
        WaitPhase::Failed(Error::Decode("bad height".to_string()))
    );
    assert_eq!(releases(&actions), 1);
}

#[test]
fn height_exactly_at_depth_succeeds_and_below_does_not() {
    // c >= h + depth decides, with equality included.
    let (state, _) = drive(
        2,
        vec![
            WaitEvent::FilterCreated,
            WaitEvent::Tick,
            WaitEvent::Tick,
            WaitEvent::Tick,
            WaitEvent::Checked(Some(40)),
            WaitEvent::Height(42),
        ],
    );
    assert_eq!(state.phase, WaitPhase::Complete);

    let (state, _) = drive(
        2,
        vec![
            WaitEvent::FilterCreated,
            WaitEvent::Tick,
            WaitEvent::Tick,
            WaitEvent::Tick,
            WaitEvent::Checked(Some(40)),
            WaitEvent::Height(41),
        ],
    );
    assert!(!matches!(state.phase, WaitPhase::Complete));
}

#[test]
fn huge_depths_never_overflow_the_burial_test() {
    // h + depth exceeds the machine word; the comparison must still say
    // "not buried" rather than wrap.
    let waiting = ConfirmationWait {
        depth: u64::MAX,
        filter_installed: true,
        phase: WaitPhase::AwaitingHeight { event_height: 5 },
    };
    let (state, action) = waiting.step(WaitEvent::Height(u64::MAX));
    assert!(!matches!(state.phase, WaitPhase::Complete));
    assert_eq!(action, WaitAction::AwaitTick);

    // With the event at height 0 the maximal height is exactly deep enough.
    let waiting = ConfirmationWait {
        depth: u64::MAX,
        filter_installed: true,
        phase: WaitPhase::AwaitingHeight { event_height: 0 },
    };
    let (state, action) = waiting.step(WaitEvent::Height(u64::MAX));
    assert_eq!(state.phase, WaitPhase::Complete);
    assert_eq!(action, WaitAction::Finish { release_filter: true });
}

#[test]
fn receipt_block_number_reads_through_the_option() {
    assert_eq!(receipt_block_number(&None), None);
    let pending = TransactionReceipt { transaction_hash: hash(1), block_number: None, status: None };
    assert_eq!(receipt_block_number(&Some(pending)), None);
    let mined = TransactionReceipt {
        transaction_hash: hash(1),
        block_number: Some(90),
        status: Some(1),
    };
    assert_eq!(receipt_block_number(&Some(mined)), Some(90));
}

#[test]
fn missing_receipt_after_wait_is_an_invariant_violation() {
    match receipt_after_wait(None) {
        Err(Error::InvariantViolation(_)) => {}
        other => panic!("expected an invariant violation, got {:?}", other),
    }
    let mined = TransactionReceipt {
        transaction_hash: hash(2),
        block_number: Some(5),
        status: Some(1),
    };
    assert_eq!(receipt_after_wait(Some(mined.clone())), Ok(mined));
}
