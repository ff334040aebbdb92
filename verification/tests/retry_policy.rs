use kanto_auto_deployer::retry::{
    ConnectAction, Connector, RetryState, RetryTimes, CM_RETRY_BASE_TIMEOUT_MS,
};

fn failures_until_give_up(policy: RetryTimes, at_most: usize) -> Option<(usize, Vec<u64>)> {
    let (mut connector, first) = Connector::start(policy);
    let mut attempts = 0;
    let mut delays = Vec::new();
    let mut action = first;
    loop {
        match action {
            ConnectAction::GiveUp => return Some((attempts, delays)),
            ConnectAction::Attempt => attempts += 1,
            ConnectAction::RetryAfter(delay) => {
                attempts += 1;
                delays.push(delay);
            }
        }
        if attempts >= at_most {
            return None;
        }
        let (next, following) = connector.on_failure();
        connector = next;
        action = following;
    }
}

#[test]
fn count_of_three_pays_for_three_attempts() {
    let (connector, first) = Connector::start(RetryTimes::Count(3));
    assert_eq!(first, ConnectAction::Attempt);
    let (connector, second) = connector.on_failure();
    assert_eq!(second, ConnectAction::RetryAfter(100));
    let (connector, third) = connector.on_failure();
    assert_eq!(third, ConnectAction::RetryAfter(100));
    let (_, last) = connector.on_failure();
    assert_eq!(last, ConnectAction::GiveUp);
}

#[test]
fn count_pays_for_exactly_as_many_attempts() {
    for n in 1..20u32 {
        let (attempts, delays) = failures_until_give_up(RetryTimes::Count(n), 1000).unwrap();
        assert_eq!(attempts, n as usize);
        assert_eq!(delays.len(), n as usize - 1);
    }
}

#[test]
fn count_of_zero_fails_without_an_attempt() {
    let (connector, first) = Connector::start(RetryTimes::Count(0));
    assert_eq!(first, ConnectAction::GiveUp);
    let (_, again) = connector.on_failure();
    assert_eq!(again, ConnectAction::GiveUp);
    assert_eq!(failures_until_give_up(RetryTimes::Count(0), 10), Some((0, vec![])));
}

#[test]
fn never_makes_exactly_one_attempt() {
    assert_eq!(failures_until_give_up(RetryTimes::Never, 10), Some((1, vec![])));
}

#[test]
fn forever_never_gives_up() {
    assert_eq!(failures_until_give_up(RetryTimes::Forever, 200), None);
}

#[test]
fn giving_up_is_final() {
    let (connector, _) = Connector::start(RetryTimes::Never);
    let (connector, first) = connector.on_failure();
    assert_eq!(first, ConnectAction::GiveUp);
    let (_, second) = connector.on_failure();
    assert_eq!(second, ConnectAction::GiveUp);
}

#[test]
fn delays_follow_the_fibonacci_series() {
    assert_eq!(CM_RETRY_BASE_TIMEOUT_MS, 100);
    let (_, delays) = failures_until_give_up(RetryTimes::Count(9), 100).unwrap();
    assert_eq!(delays, vec![100, 100, 200, 300, 500, 800, 1300, 2100]);
}

#[test]
fn delays_saturate() {
    let (mut connector, _) = Connector::start(RetryTimes::Forever);
    let mut last = 0;
    for _ in 0..120 {
        let (next, action) = connector.on_failure();
        connector = next;
        match action {
            ConnectAction::RetryAfter(delay) => {
                assert!(delay >= last);
                last = delay;
            }
            other => panic!("unexpected {other:?}"),
        }
    }
    assert_eq!(last, u64::MAX);
}

#[test]
fn tick_charges_a_counted_budget() {
    let mut state = RetryState::new(RetryTimes::Count(2));
    assert!(state.tick());
    assert!(!state.tick());
    assert!(!state.tick());
    let mut forever = RetryState::new(RetryTimes::Forever);
    assert!(forever.tick());
    let mut never = RetryState::new(RetryTimes::Never);
    assert!(!never.tick());
    let mut none = RetryState::new(RetryTimes::Count(0));
    assert!(!none.tick());
}
