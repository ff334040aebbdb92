//! The deployment of one manifest, from its file to the calls that
//! reconcile it, and the deployment of a whole directory of manifests.
//!
//! Reading files, connecting and calling the control plane is the caller's
//! part. [`Deployment`] decides: it is handed what happened and answers with
//! what to do next.

use crate::json::json_of_text;
use crate::manifest_parser::{normalized, try_parse_manifest, ManifestError, ManifestErrorView};
use crate::reconcile::{
    next, ReconcileError, ReconcileErrorView, Reconciliation, ReconciliationView, Request,
    RequestView, Response, ResponseView, RpcError, RpcErrorView, Step, StepView,
};
use crate::retry::{
    fibonacci_delay, ConnectAction, Connector, RetryTimes, CM_RETRY_BASE_TIMEOUT_MS,
};
use vstd::prelude::*;

verus! {

/// Why the deployment of a manifest failed.
#[derive(Debug, PartialEq, Eq)]
pub enum DeployError {
    /// The manifest file could not be read.
    Unreadable(String),
    /// No connection to the control plane could be had within the retry
    /// policy. The cause is that of the last attempt, if one was made.
    Connection(Option<String>),
    /// The manifest describes no container.
    Manifest(ManifestError),
    /// The reconciliation failed.
    Reconcile(ReconcileError),
    /// Something was reported that the deployment was not waiting for.
    UnexpectedEvent,
}

pub enum DeployErrorView {
    Unreadable(Seq<char>),
    Connection(Option<Seq<char>>),
    Manifest(ManifestErrorView),
    Reconcile(ReconcileErrorView),
    UnexpectedEvent,
}

impl View for DeployError {
    type V = DeployErrorView;

    open spec fn view(&self) -> DeployErrorView {
        match self {
            DeployError::Unreadable(cause) => DeployErrorView::Unreadable(cause@),
            DeployError::Connection(Some(cause)) => DeployErrorView::Connection(Some(cause@)),
            DeployError::Connection(None) => DeployErrorView::Connection(None),
            DeployError::Manifest(e) => DeployErrorView::Manifest(e@),
            DeployError::Reconcile(e) => DeployErrorView::Reconcile(e@),
            DeployError::UnexpectedEvent => DeployErrorView::UnexpectedEvent,
        }
    }
}

/// What the caller reports to a deployment.
#[derive(Debug, PartialEq, Eq)]
pub enum Event {
    /// The manifest file was read; this is its text.
    ManifestRead(String),
    /// The manifest file could not be read.
    ManifestUnreadable(String),
    /// The connection to the control plane stands.
    Connected,
    /// The attempt to connect failed.
    ConnectionFailed(String),
    /// The control plane answered the call.
    Replied(Response),
    /// The call to the control plane failed.
    CallFailed(RpcError),
}

pub enum EventView {
    ManifestRead(Seq<char>),
    ManifestUnreadable(Seq<char>),
    Connected,
    ConnectionFailed(Seq<char>),
    Replied(ResponseView),
    CallFailed(RpcErrorView),
}

impl View for Event {
    type V = EventView;

    open spec fn view(&self) -> EventView {
        match self {
            Event::ManifestRead(text) => EventView::ManifestRead(text@),
            Event::ManifestUnreadable(cause) => EventView::ManifestUnreadable(cause@),
            Event::Connected => EventView::Connected,
            Event::ConnectionFailed(cause) => EventView::ConnectionFailed(cause@),
            Event::Replied(response) => EventView::Replied(response@),
            Event::CallFailed(e) => EventView::CallFailed(e@),
        }
    }
}

/// What a deployment asks of its caller.
#[derive(Debug, PartialEq, Eq)]
pub enum Action {
    /// Read the manifest file.
    ReadManifest,
    /// Connect to the control plane.
    Connect,
    /// Report the failed attempt with its cause, wait for the delay in
    /// milliseconds, and connect again.
    ConnectAfter { delay_ms: u64, cause: String },
    /// Make this call on the connection.
    Call(Request),
    /// The deployment is over.
    Finish(Result<(), DeployError>),
}

pub enum ActionView {
    ReadManifest,
    Connect,
    ConnectAfter { delay_ms: u64, cause: Seq<char> },
    Call(RequestView),
    Finish(Result<(), DeployErrorView>),
}

impl View for Action {
    type V = ActionView;

    open spec fn view(&self) -> ActionView {
        match self {
            Action::ReadManifest => ActionView::ReadManifest,
            Action::Connect => ActionView::Connect,
            Action::ConnectAfter { delay_ms, cause } => ActionView::ConnectAfter {
                delay_ms: *delay_ms,
                cause: cause@,
            },
            Action::Call(request) => ActionView::Call(request@),
            Action::Finish(Ok(())) => ActionView::Finish(Ok(())),
            Action::Finish(Err(e)) => ActionView::Finish(Err(e@)),
        }
    }
}

/// How far a deployment has come.
pub enum Stage {
    /// The manifest file is being read.
    Reading { retries: RetryTimes },
    /// The connection is being made; the text of the manifest waits.
    Connecting { text: String, connector: Connector },
    /// The calls to the control plane are under way.
    Reconciling(Reconciliation),
    /// Nothing is left to do.
    Finished,
}

pub enum StageView {
    Reading { retries: RetryTimes },
    Connecting { text: Seq<char>, retries: RetryTimes, attempts: nat },
    Reconciling(ReconciliationView),
    Finished,
}

impl View for Stage {
    type V = StageView;

    open spec fn view(&self) -> StageView {
        match self {
            Stage::Reading { retries } => StageView::Reading { retries: *retries },
            Stage::Connecting { text, connector } => StageView::Connecting {
                text: text@,
                retries: connector.policy(),
                attempts: connector.attempts(),
            },
            Stage::Reconciling(reconciliation) => StageView::Reconciling(reconciliation@),
            Stage::Finished => StageView::Finished,
        }
    }
}

/// The deployment of one manifest.
pub struct Deployment {
    pub path: String,
    pub recreate: bool,
    pub stage: Stage,
}

pub struct DeploymentView {
    pub path: Seq<char>,
    pub recreate: bool,
    pub stage: StageView,
}

impl View for Deployment {
    type V = DeploymentView;

    open spec fn view(&self) -> DeploymentView {
        DeploymentView { path: self.path@, recreate: self.recreate, stage: self.stage@ }
    }
}

/// The end of a deployment with an error.
pub open spec fn failed(error: DeployErrorView) -> (StageView, ActionView) {
    (StageView::Finished, ActionView::Finish(Err(error)))
}

/// The step of a deployment whose manifest was read: the first attempt to
/// connect, or the end where the policy pays for none.
pub open spec fn after_reading(text: Seq<char>, retries: RetryTimes) -> (StageView, ActionView) {
    if retries == RetryTimes::Count(0) {
        failed(DeployErrorView::Connection(None))
    } else {
        (StageView::Connecting { text, retries, attempts: 1 }, ActionView::Connect)
    }
}

/// The step of a deployment whose attempt to connect failed: another
/// attempt after the next delay of the back-off while the policy pays for
/// one, and the end with the cause of this failure once it does not.
pub open spec fn after_failed_attempt(
    text: Seq<char>,
    retries: RetryTimes,
    attempts: nat,
    cause: Seq<char>,
) -> (StageView, ActionView) {
    if retries.attempt_limit() matches Some(limit) && attempts >= limit {
        failed(DeployErrorView::Connection(Some(cause)))
    } else {
        (
            StageView::Connecting { text, retries, attempts: attempts + 1 },
            ActionView::ConnectAfter {
                delay_ms: fibonacci_delay(
                    CM_RETRY_BASE_TIMEOUT_MS,
                    if attempts == 0 {
                        0
                    } else {
                        (attempts - 1) as nat
                    },
                ),
                cause,
            },
        )
    }
}

/// The step of a deployment that is connected: the manifest is read, and the
/// reconciliation of the container it describes begins by listing what
/// exists.
pub open spec fn after_connecting(text: Seq<char>, recreate: bool) -> (StageView, ActionView) {
    match json_of_text(text) {
        None => failed(DeployErrorView::Manifest(ManifestErrorView::InvalidJson)),
        Some(manifest) => match normalized(manifest) {
            Err(e) => failed(DeployErrorView::Manifest(e)),
            Ok(desired) => (
                StageView::Reconciling(ReconciliationView::Listing { desired, recreate }),
                ActionView::Call(RequestView::List),
            ),
        },
    }
}

/// The step of a deployment that heard from the control plane.
pub open spec fn after_reply(
    reconciliation: ReconciliationView,
    reply: Result<ResponseView, RpcErrorView>,
) -> (StageView, ActionView) {
    match next(reconciliation, reply) {
        (following, StepView::Call(request)) => (
            StageView::Reconciling(following),
            ActionView::Call(request),
        ),
        (_, StepView::Finished(Ok(()))) => (StageView::Finished, ActionView::Finish(Ok(()))),
        (_, StepView::Finished(Err(e))) => failed(DeployErrorView::Reconcile(e)),
    }
}

/// The stage and the action that follow an event.
pub open spec fn deploy_step(stage: StageView, recreate: bool, event: EventView) -> (
    StageView,
    ActionView,
) {
    match (stage, event) {
        (StageView::Reading { retries }, EventView::ManifestRead(text)) => after_reading(
            text,
            retries,
        ),
        (StageView::Reading { .. }, EventView::ManifestUnreadable(cause)) => failed(
            DeployErrorView::Unreadable(cause),
        ),
        (StageView::Connecting { text, .. }, EventView::Connected) => after_connecting(
            text,
            recreate,
        ),
        (
            StageView::Connecting { text, retries, attempts },
            EventView::ConnectionFailed(cause),
        ) => after_failed_attempt(text, retries, attempts, cause),
        (StageView::Reconciling(reconciliation), EventView::Replied(response)) => after_reply(
            reconciliation,
            Ok(response),
        ),
        (StageView::Reconciling(reconciliation), EventView::CallFailed(e)) => after_reply(
            reconciliation,
            Err(e),
        ),
        _ => failed(DeployErrorView::UnexpectedEvent),
    }
}

/// The retry policy bounds the attempts to connect. A count of `n` pays for
/// at most `n` attempts: where as many were made the next failure ends the
/// deployment, and before that the number of attempts stays within `n`. A
/// count of zero ends the deployment before any attempt. `Never` pays for
/// exactly one attempt. `Forever` never ends the deployment for want of
/// attempts.
pub proof fn law_retry_budget(text: Seq<char>, n: u32, attempts: nat, cause: Seq<char>)
    ensures
        attempts >= n ==> after_failed_attempt(text, RetryTimes::Count(n), attempts, cause)
            == failed(DeployErrorView::Connection(Some(cause))),
        attempts < n ==> after_failed_attempt(text, RetryTimes::Count(n), attempts, cause).0 == (
            StageView::Connecting { text, retries: RetryTimes::Count(n), attempts: attempts + 1 }
        ),
        after_reading(text, RetryTimes::Count(0)) == failed(DeployErrorView::Connection(None)),
        after_reading(text, RetryTimes::Never) == (
            StageView::Connecting { text, retries: RetryTimes::Never, attempts: 1 },
            ActionView::Connect,
        ),
        after_failed_attempt(text, RetryTimes::Never, 1, cause) == failed(
            DeployErrorView::Connection(Some(cause)),
        ),
        !(after_failed_attempt(text, RetryTimes::Forever, attempts, cause).1 is Finish),
{
}

/// Begins the deployment of the manifest at `file_path`. The first thing to
/// do is to read it.
pub fn deploy(retries: RetryTimes, file_path: &str, recreate: bool) -> (begun: (
    Deployment,
    Action,
))
    ensures
        begun.0@ == (DeploymentView {
            path: file_path@,
            recreate,
            stage: StageView::Reading { retries },
        }),
        begun.1@ == ActionView::ReadManifest,
{
    (
        Deployment { path: file_path.to_owned(), recreate, stage: Stage::Reading { retries } },
        Action::ReadManifest,
    )
}

impl Deployment {
    /// Takes what happened and answers with what to do next.
    pub fn advance(self, event: Event) -> (advanced: (Deployment, Action))
        ensures
            advanced.0@.path == self@.path,
            advanced.0@.recreate == self@.recreate,
            (advanced.0@.stage, advanced.1@) == deploy_step(self@.stage, self@.recreate, event@),
    {
        let Deployment { path, recreate, stage } = self;
        let (stage, action) = match (stage, event) {
            (Stage::Reading { retries }, Event::ManifestRead(text)) => {
                match Connector::start(retries) {
                    (connector, ConnectAction::Attempt) => (
                        Stage::Connecting { text, connector },
                        Action::Connect,
                    ),
                    _ => (Stage::Finished, Action::Finish(Err(DeployError::Connection(None)))),
                }
            },
            (Stage::Reading { .. }, Event::ManifestUnreadable(cause)) => (
                Stage::Finished,
                Action::Finish(Err(DeployError::Unreadable(cause))),
            ),
            (Stage::Connecting { text, .. }, Event::Connected) => {
                match try_parse_manifest(text.as_str()) {
                    Ok(desired) => {
                        let (reconciliation, request) = Reconciliation::begin(desired, recreate);
                        (Stage::Reconciling(reconciliation), Action::Call(request))
                    },
                    Err(e) => (Stage::Finished, Action::Finish(Err(DeployError::Manifest(e)))),
                }
            },
            (Stage::Connecting { text, connector }, Event::ConnectionFailed(cause)) => {
                match connector.on_failure() {
                    (connector, ConnectAction::RetryAfter(delay_ms)) => (
                        Stage::Connecting { text, connector },
                        Action::ConnectAfter { delay_ms, cause },
                    ),
                    _ => (
                        Stage::Finished,
                        Action::Finish(Err(DeployError::Connection(Some(cause)))),
                    ),
                }
            },
            (Stage::Reconciling(reconciliation), Event::Replied(response)) => settle(
                reconciliation.advance(Ok(response)),
            ),
            (Stage::Reconciling(reconciliation), Event::CallFailed(e)) => settle(
                reconciliation.advance(Err(e)),
            ),
            _ => (Stage::Finished, Action::Finish(Err(DeployError::UnexpectedEvent))),
        };
        (Deployment { path, recreate, stage }, action)
    }
}

/// Turns the step of a reconciliation into that of its deployment.
fn settle(advanced: (Reconciliation, Step)) -> (settled: (Stage, Action))
    ensures
        (settled.0@, settled.1@) == match (advanced.0@, advanced.1@) {
            (following, StepView::Call(request)) => (
                StageView::Reconciling(following),
                ActionView::Call(request),
            ),
            (_, StepView::Finished(Ok(()))) => (StageView::Finished, ActionView::Finish(Ok(()))),
            (_, StepView::Finished(Err(e))) => failed(DeployErrorView::Reconcile(e)),
        },
{
    match advanced {
        (following, Step::Call(request)) => (Stage::Reconciling(following), Action::Call(request)),
        (_, Step::Finished(Ok(()))) => (Stage::Finished, Action::Finish(Ok(()))),
        (_, Step::Finished(Err(e))) => (
            Stage::Finished,
            Action::Finish(Err(DeployError::Reconcile(e))),
        ),
    }
}

/// The pattern that finds the manifests of a directory: its files that end
/// in `.json`, not those of the directories below it.
pub fn manifest_pattern(directory_path: &str) -> (pattern: String)
    ensures
        pattern@ == directory_path@ + "/*.json"@,
{
    let mut file_path = directory_path.to_owned();
    file_path.append("/*.json");
    file_path
}

/// Why the deployment of a directory failed.
#[derive(Debug, PartialEq, Eq, Clone, Copy, Structural)]
pub enum DirectoryError {
    /// The directory holds no manifest.
    NoManifests,
    /// At least one manifest could not be deployed. The others were.
    DeploymentsFailed,
}

/// How the deployment of one manifest ended.
#[derive(Debug, PartialEq, Eq)]
pub struct DeploymentOutcome {
    pub path: String,
    pub result: Result<(), DeployError>,
}

pub struct DeploymentOutcomeView {
    pub path: Seq<char>,
    pub result: Result<(), DeployErrorView>,
}

impl View for DeploymentOutcome {
    type V = DeploymentOutcomeView;

    open spec fn view(&self) -> DeploymentOutcomeView {
        DeploymentOutcomeView {
            path: self.path@,
            result: match self.result {
                Ok(()) => Ok(()),
                Err(e) => Err(e@),
            },
        }
    }
}

/// The views of a list of outcomes.
pub open spec fn outcomes_view(outcomes: Seq<DeploymentOutcome>) -> Seq<DeploymentOutcomeView> {
    Seq::new(outcomes.len(), |i: int| outcomes[i]@)
}

/// The outcomes that are successes, where `succeeded` is set, or failures,
/// where it is not; in their order.
pub open spec fn outcomes_that(outcomes: Seq<DeploymentOutcomeView>, succeeded: bool) -> Seq<
    DeploymentOutcomeView,
>
    decreases outcomes.len(),
{
    if outcomes.len() == 0 {
        outcomes
    } else if outcomes.last().result is Ok == succeeded {
        outcomes_that(outcomes.drop_last(), succeeded).push(outcomes.last())
    } else {
        outcomes_that(outcomes.drop_last(), succeeded)
    }
}

/// How the deployment of a directory ended: the manifests that were
/// deployed, and those that were not, each with its error.
#[derive(Debug, PartialEq, Eq)]
pub struct BatchResult {
    pub successful: Vec<DeploymentOutcome>,
    pub failed: Vec<DeploymentOutcome>,
}

impl BatchResult {
    /// The number of manifests that the batch dealt with.
    pub fn total(&self) -> (total: usize)
        requires
            self.successful.len() + self.failed.len() <= usize::MAX,
        ensures
            total == self.successful.len() + self.failed.len(),
    {
        self.successful.len() + self.failed.len()
    }

    /// The verdict on the batch: it failed if and only if a manifest did.
    pub fn verdict(&self) -> (verdict: Result<(), DirectoryError>)
        ensures
            verdict == if self.failed.len() > 0 {
                Err::<(), DirectoryError>(DirectoryError::DeploymentsFailed)
            } else {
                Ok(())
            },
    {
        if self.failed.len() > 0 {
            Err(DirectoryError::DeploymentsFailed)
        } else {
            Ok(())
        }
    }
}

/// Every outcome of a batch is reported once, as a success or as a failure:
/// of `k` outcomes with `m` failures, `k - m` are successes.
pub proof fn law_batch_counts(outcomes: Seq<DeploymentOutcomeView>)
    ensures
        outcomes_that(outcomes, true).len() == outcomes.len() - outcomes_that(
            outcomes,
            false,
        ).len(),
        outcomes_that(outcomes, false).len() <= outcomes.len(),
    decreases outcomes.len(),
{
    if outcomes.len() > 0 {
        law_batch_counts(outcomes.drop_last());
    }
}

/// Begins the deployment of every manifest found in a directory, each on its
/// own, without recreation. A directory without manifests is an error.
pub fn deploy_directory(found_paths: &Vec<String>, retries: RetryTimes) -> (begun: Result<
    Vec<(Deployment, Action)>,
    DirectoryError,
>)
    ensures
        found_paths.len() == 0 ==> begun == Err::<Vec<(Deployment, Action)>, DirectoryError>(
            DirectoryError::NoManifests,
        ),
        found_paths.len() > 0 ==> (begun matches Ok(deployments) && deployments.len()
            == found_paths.len() && forall|i: int|
            0 <= i < deployments.len() ==> (#[trigger] deployments[i]).0@ == (DeploymentView {
                path: found_paths[i]@,
                recreate: false,
                stage: StageView::Reading { retries },
            }) && deployments[i].1@ == ActionView::ReadManifest),
{
    if found_paths.len() == 0 {
        return Err(DirectoryError::NoManifests);
    }
    let mut deployments: Vec<(Deployment, Action)> = Vec::new();
    let mut i: usize = 0;
    while i < found_paths.len()
        invariant
            i <= found_paths.len(),
            deployments.len() == i,
            forall|j: int|
                0 <= j < i ==> (#[trigger] deployments[j]).0@ == (DeploymentView {
                    path: found_paths[j]@,
                    recreate: false,
                    stage: StageView::Reading { retries },
                }) && deployments[j].1@ == ActionView::ReadManifest,
        decreases found_paths.len() - i,
    {
        deployments.push(deploy(retries, found_paths[i].as_str(), false));
        i += 1;
    }
    Ok(deployments)
}

/// Sorts the outcomes of a batch into successes and failures. Each keeps
/// its order, and none is lost: of `k` outcomes with `m` failures, `k - m`
/// are successes.
pub fn conclude(outcomes: Vec<DeploymentOutcome>) -> (batch: BatchResult)
    ensures
        outcomes_view(batch.successful@) == outcomes_that(outcomes_view(outcomes@), true),
        outcomes_view(batch.failed@) == outcomes_that(outcomes_view(outcomes@), false),
        batch.successful.len() + batch.failed.len() == outcomes.len(),
{
    let ghost given = outcomes@;
    let ghost all = outcomes_view(outcomes@);
    let mut successful: Vec<DeploymentOutcome> = Vec::new();
    let mut failed: Vec<DeploymentOutcome> = Vec::new();
    for outcome in it: outcomes
        invariant
            it.seq() == given,
            all == outcomes_view(given),
            outcomes_view(successful@) == outcomes_that(all.take(it.index() as int), true),
            outcomes_view(failed@) == outcomes_that(all.take(it.index() as int), false),
    {
        let ghost at = it.index() as int;
        assert(all.take(at + 1).drop_last() =~= all.take(at));
        if outcome.result.is_ok() {
            successful.push(outcome);
        } else {
            failed.push(outcome);
        }
    }
    assert(all.take(given.len() as int) =~= all);
    proof {
        law_batch_counts(all);
    }
    BatchResult { successful, failed }
}

/// The stage that a deployment reaches when it is told the events in turn.
pub open spec fn stage_after(stage: StageView, recreate: bool, events: Seq<EventView>) -> StageView
    decreases events.len(),
{
    if events.len() == 0 {
        stage
    } else {
        deploy_step(stage_after(stage, recreate, events.drop_last()), recreate, events.last()).0
    }
}

/// The events among `told` that went to the deployment `to`, in their
/// order.
pub open spec fn events_for(told: Seq<(int, EventView)>, to: int) -> Seq<EventView>
    decreases told.len(),
{
    if told.len() == 0 {
        Seq::empty()
    } else if told.last().0 == to {
        events_for(told.drop_last(), to).push(told.last().1)
    } else {
        events_for(told.drop_last(), to)
    }
}

/// The stages of the deployments of a batch after each of the events was
/// told to the deployment it names, in whatever order they came.
pub open spec fn stages_after(stages: Seq<StageView>, recreate: bool, told: Seq<(int, EventView)>)
    -> Seq<StageView>
    decreases told.len(),
{
    if told.len() == 0 {
        stages
    } else {
        let before = stages_after(stages, recreate, told.drop_last());
        let to = told.last().0;
        if 0 <= to < before.len() {
            before.update(to, deploy_step(before[to], recreate, told.last().1).0)
        } else {
            before
        }
    }
}

/// The deployments of a batch do not touch each other: however the events
/// of the batch are interleaved, each deployment comes to the stage it would
/// have come to had it been told its own events alone. A manifest that fails
/// keeps no other from being deployed.
pub proof fn law_deployments_independent(
    stages: Seq<StageView>,
    recreate: bool,
    told: Seq<(int, EventView)>,
    which: int,
)
    requires
        0 <= which < stages.len(),
    ensures
        stages_after(stages, recreate, told).len() == stages.len(),
        stages_after(stages, recreate, told)[which] == stage_after(
            stages[which],
            recreate,
            events_for(told, which),
        ),
    decreases told.len(),
{
    if told.len() > 0 {
        law_deployments_independent(stages, recreate, told.drop_last(), which);
        if told.last().0 == which {
            assert(events_for(told, which).drop_last() =~= events_for(told.drop_last(), which));
        }
    }
}

} // verus!
