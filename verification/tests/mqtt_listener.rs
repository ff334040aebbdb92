use kanto_auto_deployer::fs_watcher::{Wake, WatchAction, WatchLoop};
use kanto_auto_deployer::json::Json;
use kanto_auto_deployer::mqtt_listener::{
    disable_kad, handle_mqtt_payload, judge_envelope, try_mqtt_reconnect, FeedbackMsg, Instruction,
    Listener, ListenerState, Notification, StopReason, Verdict, RECONNECT_TIMEOUT, SERVICE_ID,
    VUM_STATUS_IDENTIFIED,
};

const IDENTIFIED: &str = r#"{"activityId":"x","timestamp":1,"payload":{"status":"IDENTIFIED"}}"#;
const OTHER: &str = r#"{"activityId":"x","timestamp":1,"payload":{"status":"OTHER"}}"#;

fn listening(lock: &str) -> Listener {
    let (mut listener, first) = Listener::new(lock);
    assert_eq!(first, Instruction::ProbeLock);
    assert_eq!(
        listener.on_notification(Notification::LockProbed { regular_file: true }),
        Instruction::Subscribe
    );
    assert_eq!(listener.on_notification(Notification::Subscribed), Instruction::Poll);
    assert_eq!(listener.state, ListenerState::Listening);
    listener
}

#[test]
fn hand_over_disables_the_lock_and_cancels_the_watch_loop() {
    let mut listener = listening("/var/lib/kanto-auto-deployer/KAD.enabled");
    let instruction = listener.on_notification(Notification::Published(IDENTIFIED.as_bytes().to_vec()));
    assert_eq!(
        instruction,
        Instruction::HandOff {
            rename_to: Some("/var/lib/kanto-auto-deployer/KAD.disabled".to_string())
        }
    );
    assert_eq!(listener.state, ListenerState::Done);
    // The caller raises the flag; the watch loop sees it when its timer runs out next.
    let cancelled = matches!(instruction, Instruction::HandOff { .. });
    let mut watch = WatchLoop::new();
    assert_eq!(watch.on_wake(Wake::TimerElapsed { cancelled }), WatchAction::Exit);
    assert!(!watch.running);
}

#[test]
fn other_status_keeps_the_listener_listening() {
    let mut listener = listening("KAD.enabled");
    assert_eq!(
        listener.on_notification(Notification::Published(OTHER.as_bytes().to_vec())),
        Instruction::Poll
    );
    assert_eq!(listener.state, ListenerState::Listening);
    let mut watch = WatchLoop::new();
    assert_eq!(watch.on_wake(Wake::TimerElapsed { cancelled: false }), WatchAction::Continue);
}

#[test]
fn undecodable_messages_are_passed_over() {
    let mut listener = listening("KAD.enabled");
    for payload in [&b"not json"[..], &b"\xff\xfe"[..], &b"{}"[..], &b""[..]] {
        assert_eq!(
            listener.on_notification(Notification::Published(payload.to_vec())),
            Instruction::Poll
        );
    }
    assert_eq!(listener.on_notification(Notification::Other), Instruction::Poll);
    assert_eq!(listener.state, ListenerState::Listening);
}

#[test]
fn missing_lock_keeps_the_listener_from_starting() {
    let (mut listener, _) = Listener::new("KAD.enabled");
    assert_eq!(
        listener.on_notification(Notification::LockProbed { regular_file: false }),
        Instruction::Stop(StopReason::LockMissing)
    );
    assert_eq!(listener.state, ListenerState::Done);
    assert_eq!(
        listener.on_notification(Notification::Published(IDENTIFIED.as_bytes().to_vec())),
        Instruction::Stop(StopReason::Unexpected)
    );
}

#[test]
fn failed_first_subscription_ends_the_listener() {
    let (mut listener, _) = Listener::new("KAD.enabled");
    listener.on_notification(Notification::LockProbed { regular_file: true });
    assert_eq!(
        listener.on_notification(Notification::SubscribeFailed),
        Instruction::Stop(StopReason::SubscribeFailed)
    );
}

#[test]
fn wait_grows_by_the_delta_and_is_reset_by_a_subscription() {
    assert_eq!(RECONNECT_TIMEOUT, 2);
    let mut listener = listening("KAD.enabled");
    for expected in [4, 6, 8] {
        assert_eq!(listener.on_notification(Notification::ConnectionLost), Instruction::Resubscribe);
        assert!(listener.can_wait_longer());
        assert_eq!(
            listener.on_notification(Notification::SubscribeFailed),
            Instruction::SleepThenPoll(expected)
        );
        assert_eq!(listener.state, ListenerState::Listening);
    }
    assert_eq!(listener.on_notification(Notification::ConnectionLost), Instruction::Resubscribe);
    assert_eq!(listener.on_notification(Notification::Subscribed), Instruction::Poll);
    assert_eq!(listener.timeout, 2);
    assert_eq!(listener.on_notification(Notification::ConnectionLost), Instruction::Resubscribe);
    assert_eq!(
        listener.on_notification(Notification::SubscribeFailed),
        Instruction::SleepThenPoll(4)
    );
}

#[test]
fn reconnect_settles_the_wait() {
    let mut timeout = 2;
    assert_eq!(try_mqtt_reconnect(&mut timeout, false, 2), Some(4));
    assert_eq!(timeout, 4);
    assert_eq!(try_mqtt_reconnect(&mut timeout, false, 2), Some(6));
    assert_eq!(try_mqtt_reconnect(&mut timeout, true, 2), None);
    assert_eq!(timeout, 2);
    let mut large = u64::MAX;
    assert_eq!(try_mqtt_reconnect(&mut large, true, 2), None);
    assert_eq!(large, 2);
}

#[test]
fn wait_that_cannot_grow_is_noticed() {
    let mut listener = listening("KAD.enabled");
    listener.timeout = u64::MAX - 1;
    assert!(!listener.can_wait_longer());
    listener.timeout = u64::MAX - 2;
    assert!(listener.can_wait_longer());
}

#[test]
fn payloads_are_judged_by_their_status() {
    assert_eq!(VUM_STATUS_IDENTIFIED, "IDENTIFIED");
    assert_eq!(SERVICE_ID, "kanto_auto_deployer");
    assert_eq!(handle_mqtt_payload(IDENTIFIED.as_bytes()), Verdict::HandOff);
    assert_eq!(handle_mqtt_payload(OTHER.as_bytes()), Verdict::OtherStatus);
    assert_eq!(handle_mqtt_payload(b"[1]"), Verdict::Undecodable);
    assert_eq!(handle_mqtt_payload(b"{"), Verdict::Undecodable);
    assert_eq!(
        handle_mqtt_payload(br#"{"activity_id":"x","timestamp":18446744073709551615,"payload":{"status":"IDENTIFIED","more":[1,2]},"extra":null}"#),
        Verdict::HandOff
    );
    assert_eq!(
        handle_mqtt_payload(br#"{"activityId":"x","timestamp":-1,"payload":{"status":"IDENTIFIED"}}"#),
        Verdict::Undecodable
    );
    assert_eq!(
        handle_mqtt_payload(br#"{"activityId":"x","timestamp":1.5,"payload":{"status":"IDENTIFIED"}}"#),
        Verdict::Undecodable
    );
    assert_eq!(
        handle_mqtt_payload(br#"{"activityId":"x","activity_id":"y","timestamp":1,"payload":{"status":"IDENTIFIED"}}"#),
        Verdict::Undecodable
    );
    assert_eq!(
        handle_mqtt_payload(br#"{"timestamp":1,"payload":{"status":"IDENTIFIED"}}"#),
        Verdict::Undecodable
    );
    assert_eq!(
        handle_mqtt_payload(br#"{"activityId":"x","timestamp":1,"payload":{"status":"identified"}}"#),
        Verdict::OtherStatus
    );
}

#[test]
fn feedback_message_is_read_from_its_envelope() {
    let envelope = Json::parse(IDENTIFIED).unwrap();
    assert_eq!(
        FeedbackMsg::from_json(&envelope),
        Some(FeedbackMsg {
            activity_id: "x".to_string(),
            timestamp: 1,
            status: "IDENTIFIED".to_string()
        })
    );
    assert_eq!(judge_envelope(&envelope), Verdict::HandOff);
    assert_eq!(judge_envelope(&Json::Null), Verdict::Undecodable);
}

#[test]
fn disabled_lock_has_the_extension_replaced() {
    assert_eq!(disable_kad("KAD.enabled"), Some("KAD.disabled".to_string()));
    assert_eq!(disable_kad("/a/b/KAD"), Some("/a/b/KAD.disabled".to_string()));
    assert_eq!(disable_kad("/a.d/KAD.x.enabled"), Some("/a.d/KAD.x.disabled".to_string()));
    assert_eq!(disable_kad("/"), None);
    assert_eq!(disable_kad(""), None);
}
