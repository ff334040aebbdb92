//! Decisions of the listener that waits for the fleet-update agent to take
//! over.
//!
//! The broker and the lock file are the caller's part. [`Listener`] decides:
//! it is handed what the broker and the file system reported and answers
//! with what to do next.

use crate::canonical::{members_of, text_at, view_opt};
use crate::json::{json_of_bytes, lookup, Json, JsonValue};
use crate::number::{parse_u64, u64_of};
use crate::text::same_text;
use std::path::PathBuf;
use vstd::prelude::*;

verus! {

/// The name under which the listener is known to the broker.
pub const SERVICE_ID: &'static str = "kanto_auto_deployer";

/// The status with which the fleet-update agent takes over.
pub const VUM_STATUS_IDENTIFIED: &'static str = "IDENTIFIED";

/// Seconds by which the wait before a new subscription grows with each
/// failure.
pub const RECONNECT_TIMEOUT: u64 = 2;

/// The extension that marks the lock as disabled.
pub const DISABLED_EXTENSION: &'static str = "disabled";

/// A feedback message of the fleet-update agent.
#[derive(Debug, PartialEq, Eq)]
pub struct FeedbackMsg {
    pub activity_id: String,
    pub timestamp: u64,
    pub status: String,
}

pub struct FeedbackMsgView {
    pub activity_id: Seq<char>,
    pub timestamp: u64,
    pub status: Seq<char>,
}

impl View for FeedbackMsg {
    type V = FeedbackMsgView;

    open spec fn view(&self) -> FeedbackMsgView {
        FeedbackMsgView {
            activity_id: self.activity_id@,
            timestamp: self.timestamp,
            status: self.status@,
        }
    }
}

/// The id of the activity that an envelope names. It stands under
/// `activity_id` or under `activityId`, and not under both.
pub open spec fn activity_of(envelope: JsonValue) -> Option<Seq<char>> {
    if lookup(members_of(envelope), "activity_id"@) is Some {
        if lookup(members_of(envelope), "activityId"@) is Some {
            None
        } else {
            text_at(envelope, "activity_id"@)
        }
    } else {
        text_at(envelope, "activityId"@)
    }
}

/// The time stamp of an envelope: an unsigned 64-bit integer under
/// `timestamp`.
pub open spec fn timestamp_of(envelope: JsonValue) -> Option<u64> {
    match lookup(members_of(envelope), "timestamp"@) {
        Some(JsonValue::Number(literal)) => u64_of(literal),
        _ => None,
    }
}

/// The status of an envelope: a text under `status` in the object under
/// `payload`.
pub open spec fn status_of(envelope: JsonValue) -> Option<Seq<char>> {
    match lookup(members_of(envelope), "payload"@) {
        Some(payload) => text_at(payload, "status"@),
        None => None,
    }
}

/// The feedback message that a document holds, `None` where the document is
/// no envelope with an activity, a time stamp and a status.
pub open spec fn decode_feedback(envelope: JsonValue) -> Option<FeedbackMsgView> {
    match (activity_of(envelope), timestamp_of(envelope), status_of(envelope)) {
        (Some(activity_id), Some(timestamp), Some(status)) => Some(
            FeedbackMsgView { activity_id, timestamp, status },
        ),
        _ => None,
    }
}

impl FeedbackMsg {
    /// Reads a feedback message from a document.
    pub fn from_json(envelope: &Json) -> (message: Option<FeedbackMsg>)
        ensures
            view_opt(message) == decode_feedback(envelope@),
    {
        let activity_id = match envelope.get("activity_id") {
            Some(found) => {
                if envelope.get("activityId").is_some() {
                    return None;
                }
                match found {
                    Json::Text(text) => text.clone(),
                    _ => {
                        return None;
                    },
                }
            },
            None => match envelope.get("activityId") {
                Some(Json::Text(text)) => text.clone(),
                _ => {
                    return None;
                },
            },
        };
        let timestamp = match envelope.get("timestamp") {
            Some(Json::Number(literal)) => match parse_u64(literal.as_str()) {
                Some(timestamp) => timestamp,
                None => {
                    return None;
                },
            },
            _ => {
                return None;
            },
        };
        let status = match envelope.get("payload") {
            Some(payload) => match payload.get("status") {
                Some(Json::Text(text)) => text.clone(),
                _ => {
                    return None;
                },
            },
            None => {
                return None;
            },
        };
        Some(FeedbackMsg { activity_id, timestamp, status })
    }
}

/// What a message of the broker means to the listener.
#[derive(Debug, PartialEq, Eq, Clone, Copy, Structural)]
pub enum Verdict {
    /// The fleet-update agent takes over.
    HandOff,
    /// The message is a feedback message with another status.
    OtherStatus,
    /// The message is no feedback message.
    Undecodable,
}

/// What the bytes of a message mean to the listener.
pub open spec fn verdict_on(payload: Seq<u8>) -> Verdict {
    match json_of_bytes(payload) {
        None => Verdict::Undecodable,
        Some(envelope) => verdict_on_envelope(envelope),
    }
}

/// What a message that is a JSON document means to the listener.
pub open spec fn verdict_on_envelope(envelope: JsonValue) -> Verdict {
    match decode_feedback(envelope) {
        None => Verdict::Undecodable,
        Some(message) => if message.status == VUM_STATUS_IDENTIFIED@ {
            Verdict::HandOff
        } else {
            Verdict::OtherStatus
        },
    }
}

/// Judges a message that is a JSON document.
pub fn judge_envelope(envelope: &Json) -> (verdict: Verdict)
    ensures
        verdict == verdict_on_envelope(envelope@),
{
    match FeedbackMsg::from_json(envelope) {
        None => Verdict::Undecodable,
        Some(message) => {
            if same_text(message.status.as_str(), VUM_STATUS_IDENTIFIED) {
                Verdict::HandOff
            } else {
                Verdict::OtherStatus
            }
        },
    }
}

/// Judges the bytes of a message.
pub fn handle_mqtt_payload(payload: &[u8]) -> (verdict: Verdict)
    ensures
        verdict == verdict_on(payload@),
{
    match Json::parse_slice(payload) {
        None => Verdict::Undecodable,
        Some(envelope) => judge_envelope(&envelope),
    }
}

/// Whether the character separates the parts of a path on some platform.
pub open spec fn is_separator(c: char) -> bool {
    c == '/' || c == '\\'
}

/// The path with its extension replaced as `std::path::PathBuf::set_extension`
/// does it on the platform the library is built for, `None` where the path
/// has no file name.
pub uninterp spec fn path_with_extension(path: Seq<char>, extension: Seq<char>) -> Option<
    Seq<char>,
>;

/// `std::path::PathBuf::set_extension` on the path: the path with the
/// extension of its file name replaced, or added where it had none; `None`
/// where the path has no file name. The extension must hold no separator.
#[verifier::external_body]
fn with_extension(path: &str, extension: &str) -> (changed: Option<String>)
    requires
        forall|i: int| 0 <= i < extension@.len() ==> !is_separator(#[trigger] extension@[i]),
    ensures
        view_opt(changed) == path_with_extension(path@, extension@),
{
    let mut changed = PathBuf::from(path);
    if changed.set_extension(extension) {
        Some(changed.to_string_lossy().into_owned())
    } else {
        None
    }
}

/// The path to which the lock is renamed when the daemon is disabled: the
/// path of the lock with the extension `disabled`.
pub fn disable_kad(lock_path: &str) -> (disabled: Option<String>)
    ensures
        view_opt(disabled) == path_with_extension(lock_path@, DISABLED_EXTENSION@),
{
    proof {
        reveal_strlit("disabled");
    }
    with_extension(lock_path, DISABLED_EXTENSION)
}

/// The wait before the next subscription, in seconds, after an attempt to
/// subscribe again: back at `delta` after a success, longer by `delta` after
/// a failure.
pub open spec fn next_timeout(timeout: u64, delta: u64, resubscribed: bool) -> int {
    if resubscribed {
        delta as int
    } else {
        timeout + delta
    }
}

/// Settles the wait after an attempt to subscribe again. After a failure the
/// caller sleeps for the new wait before it goes on.
pub fn try_mqtt_reconnect(timeout: &mut u64, resubscribed: bool, delta: u64) -> (sleep: Option<
    u64,
>)
    requires
        resubscribed || *old(timeout) + delta <= u64::MAX,
    ensures
        *final(timeout) == next_timeout(*old(timeout), delta, resubscribed),
        sleep == if resubscribed {
            None
        } else {
            Some(*final(timeout))
        },
{
    if resubscribed {
        *timeout = delta;
        None
    } else {
        *timeout = *timeout + delta;
        Some(*timeout)
    }
}

/// Where the listener stands.
#[derive(Debug, PartialEq, Eq, Clone, Copy, Structural)]
pub enum ListenerState {
    /// The lock is being looked at.
    Starting,
    /// The first subscription is being made.
    Subscribing,
    /// The listener waits for the next notification of the broker.
    Listening,
    /// The connection was lost and a new subscription is being made.
    Resubscribing,
    /// The listener has ended.
    Done,
}

/// What the caller reports to the listener.
#[derive(Debug, PartialEq, Eq)]
pub enum Notification {
    /// The lock was looked at; `regular_file` says whether it is there and a
    /// regular file.
    LockProbed { regular_file: bool },
    /// The subscription stands.
    Subscribed,
    /// The subscription failed.
    SubscribeFailed,
    /// A message came in on the topic.
    Published(Vec<u8>),
    /// The broker sent something that is no message on the topic.
    Other,
    /// The connection to the broker was lost.
    ConnectionLost,
}

/// Why the listener ended without a hand-over.
#[derive(Debug, PartialEq, Eq, Clone, Copy, Structural)]
pub enum StopReason {
    /// The lock is not there: the daemon runs on without coordination.
    LockMissing,
    /// The first subscription failed.
    SubscribeFailed,
    /// Something was reported that the listener was not waiting for.
    Unexpected,
}

/// What the listener asks of its caller.
#[derive(Debug, PartialEq, Eq)]
pub enum Instruction {
    /// Look whether the lock is there and a regular file.
    ProbeLock,
    /// Subscribe to the topic.
    Subscribe,
    /// Wait for the next notification of the broker.
    Poll,
    /// Subscribe to the topic again.
    Resubscribe,
    /// Sleep for so many seconds, then wait for the next notification.
    SleepThenPoll(u64),
    /// The fleet-update agent takes over: rename the lock to this path,
    /// where there is one, and report a failure to do so without giving up;
    /// then raise the cancellation flag and end.
    HandOff { rename_to: Option<String> },
    /// End without raising the cancellation flag.
    Stop(StopReason),
}

pub enum InstructionView {
    ProbeLock,
    Subscribe,
    Poll,
    Resubscribe,
    SleepThenPoll(u64),
    HandOff { rename_to: Option<Seq<char>> },
    Stop(StopReason),
}

impl View for Instruction {
    type V = InstructionView;

    open spec fn view(&self) -> InstructionView {
        match self {
            Instruction::ProbeLock => InstructionView::ProbeLock,
            Instruction::Subscribe => InstructionView::Subscribe,
            Instruction::Poll => InstructionView::Poll,
            Instruction::Resubscribe => InstructionView::Resubscribe,
            Instruction::SleepThenPoll(seconds) => InstructionView::SleepThenPoll(*seconds),
            Instruction::HandOff { rename_to } => InstructionView::HandOff {
                rename_to: view_opt(*rename_to),
            },
            Instruction::Stop(reason) => InstructionView::Stop(*reason),
        }
    }
}

/// The listener for the hand-over to the fleet-update agent.
pub struct Listener {
    /// The path of the lock that marks the daemon as enabled.
    pub lock_path: String,
    /// Seconds by which the wait grows with each failed subscription.
    pub delta: u64,
    /// Seconds to wait after the next failed subscription but one.
    pub timeout: u64,
    pub state: ListenerState,
}

/// What a message does to a listening listener: a hand-over ends it, with
/// the lock renamed to its disabled name; anything else leaves it
/// listening.
pub open spec fn on_message(lock_path: Seq<char>, payload: Seq<u8>) -> (
    ListenerState,
    InstructionView,
) {
    if verdict_on(payload) == Verdict::HandOff {
        (
            ListenerState::Done,
            InstructionView::HandOff {
                rename_to: path_with_extension(lock_path, DISABLED_EXTENSION@),
            },
        )
    } else {
        (ListenerState::Listening, InstructionView::Poll)
    }
}

/// The state, the wait and the instruction that follow a notification.
pub open spec fn listener_step(
    state: ListenerState,
    lock_path: Seq<char>,
    timeout: u64,
    delta: u64,
    notification: Notification,
) -> (ListenerState, int, InstructionView) {
    match (state, notification) {
        (ListenerState::Starting, Notification::LockProbed { regular_file }) => if regular_file {
            (ListenerState::Subscribing, timeout as int, InstructionView::Subscribe)
        } else {
            (
                ListenerState::Done,
                timeout as int,
                InstructionView::Stop(StopReason::LockMissing),
            )
        },
        (ListenerState::Subscribing, Notification::Subscribed) => (
            ListenerState::Listening,
            timeout as int,
            InstructionView::Poll,
        ),
        (ListenerState::Subscribing, Notification::SubscribeFailed) => (
            ListenerState::Done,
            timeout as int,
            InstructionView::Stop(StopReason::SubscribeFailed),
        ),
        (ListenerState::Listening, Notification::Published(payload)) => (
            on_message(lock_path, payload@).0,
            timeout as int,
            on_message(lock_path, payload@).1,
        ),
        (ListenerState::Listening, Notification::Other) => (
            ListenerState::Listening,
            timeout as int,
            InstructionView::Poll,
        ),
        (ListenerState::Listening, Notification::ConnectionLost) => (
            ListenerState::Resubscribing,
            timeout as int,
            InstructionView::Resubscribe,
        ),
        (ListenerState::Resubscribing, Notification::Subscribed) => (
            ListenerState::Listening,
            delta as int,
            InstructionView::Poll,
        ),
        (ListenerState::Resubscribing, Notification::SubscribeFailed) => (
            ListenerState::Listening,
            timeout + delta,
            InstructionView::SleepThenPoll((timeout + delta) as u64),
        ),
        _ => (ListenerState::Done, timeout as int, InstructionView::Stop(StopReason::Unexpected)),
    }
}

impl Listener {
    /// A listener for the lock at `lock_path`. The first thing to do is to
    /// look at the lock.
    pub fn new(lock_path: &str) -> (started: (Listener, Instruction))
        ensures
            started.0.lock_path@ == lock_path@,
            started.0.delta == RECONNECT_TIMEOUT,
            started.0.timeout == RECONNECT_TIMEOUT,
            started.0.state == ListenerState::Starting,
            started.1@ == InstructionView::ProbeLock,
    {
        (
            Listener {
                lock_path: lock_path.to_owned(),
                delta: RECONNECT_TIMEOUT,
                timeout: RECONNECT_TIMEOUT,
                state: ListenerState::Starting,
            },
            Instruction::ProbeLock,
        )
    }

    /// Whether the wait can grow once more.
    pub open spec fn wait_can_grow(&self) -> bool {
        self.timeout + self.delta <= u64::MAX
    }

    /// Whether the wait can grow once more.
    pub fn can_wait_longer(&self) -> (fits: bool)
        ensures
            fits == self.wait_can_grow(),
    {
        self.timeout.checked_add(self.delta).is_some()
    }

    /// Takes what was reported and answers with what to do next.
    pub fn on_notification(&mut self, notification: Notification) -> (instruction: Instruction)
        requires
            old(self).state == ListenerState::Resubscribing && notification
                == Notification::SubscribeFailed ==> old(self).wait_can_grow(),
        ensures
            final(self).lock_path == old(self).lock_path,
            final(self).delta == old(self).delta,
            (final(self).state, final(self).timeout as int, instruction@) == listener_step(
                old(self).state,
                old(self).lock_path@,
                old(self).timeout,
                old(self).delta,
                notification,
            ),
    {
        match (self.state, notification) {
            (ListenerState::Starting, Notification::LockProbed { regular_file }) => {
                if regular_file {
                    self.state = ListenerState::Subscribing;
                    Instruction::Subscribe
                } else {
                    self.state = ListenerState::Done;
                    Instruction::Stop(StopReason::LockMissing)
                }
            },
            (ListenerState::Subscribing, Notification::Subscribed) => {
                self.state = ListenerState::Listening;
                Instruction::Poll
            },
            (ListenerState::Subscribing, Notification::SubscribeFailed) => {
                self.state = ListenerState::Done;
                Instruction::Stop(StopReason::SubscribeFailed)
            },
            (ListenerState::Listening, Notification::Published(payload)) => {
                match handle_mqtt_payload(payload.as_slice()) {
                    Verdict::HandOff => {
                        self.state = ListenerState::Done;
                        Instruction::HandOff { rename_to: disable_kad(self.lock_path.as_str()) }
                    },
                    _ => Instruction::Poll,
                }
            },
            (ListenerState::Listening, Notification::Other) => Instruction::Poll,
            (ListenerState::Listening, Notification::ConnectionLost) => {
                self.state = ListenerState::Resubscribing;
                Instruction::Resubscribe
            },
            (ListenerState::Resubscribing, Notification::Subscribed) => {
                self.state = ListenerState::Listening;
                let _ = try_mqtt_reconnect(&mut self.timeout, true, self.delta);
                Instruction::Poll
            },
            (ListenerState::Resubscribing, Notification::SubscribeFailed) => {
                self.state = ListenerState::Listening;
                match try_mqtt_reconnect(&mut self.timeout, false, self.delta) {
                    Some(seconds) => Instruction::SleepThenPoll(seconds),
                    None => Instruction::Poll,
                }
            },
            _ => {
                self.state = ListenerState::Done;
                Instruction::Stop(StopReason::Unexpected)
            },
        }
    }
}

/// The listener hands over at most once: only a listener that listens hands
/// over, only on a message whose status says so, and it has ended when it
/// does. A listener that has ended asks for nothing but to stop, whatever it
/// is told.
pub proof fn law_one_hand_over(
    state: ListenerState,
    lock_path: Seq<char>,
    timeout: u64,
    delta: u64,
    notification: Notification,
)
    ensures
        listener_step(state, lock_path, timeout, delta, notification).2 is HandOff ==> state
            == ListenerState::Listening && (notification matches Notification::Published(payload)
            && verdict_on(payload@) == Verdict::HandOff) && listener_step(
            state,
            lock_path,
            timeout,
            delta,
            notification,
        ).0 == ListenerState::Done,
        state == ListenerState::Done ==> listener_step(
            state,
            lock_path,
            timeout,
            delta,
            notification,
        ) == (
            ListenerState::Done,
            timeout as int,
            InstructionView::Stop(StopReason::Unexpected),
        ),
{
}

} // verus!
