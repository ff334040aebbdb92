//! Reconciliation of one desired container with what the control plane runs.
//!
//! The control plane is called by the caller. [`Reconciliation`] decides:
//! it is handed each reply and answers with the next call to make, or with
//! the end of the reconciliation. A failed call ends it; nothing is retried.

use crate::container::{container_running, containers_view, is_running, Container, ContainerView};
use crate::text::same_text;
use vstd::prelude::*;

verus! {

/// Seconds a running container is given to stop before it is killed.
pub const STOP_TIMEOUT: i64 = 1;

/// A call to the control plane.
#[derive(Debug, PartialEq, Eq)]
pub enum Request {
    List,
    Create(Container),
    Start { id: String },
    Stop { id: String, timeout: i64, force: bool, signal: String },
    Remove { id: String, force: bool },
}

pub enum RequestView {
    List,
    Create(ContainerView),
    Start { id: Seq<char> },
    Stop { id: Seq<char>, timeout: i64, force: bool, signal: Seq<char> },
    Remove { id: Seq<char>, force: bool },
}

impl View for Request {
    type V = RequestView;

    open spec fn view(&self) -> RequestView {
        match self {
            Request::List => RequestView::List,
            Request::Create(container) => RequestView::Create(container@),
            Request::Start { id } => RequestView::Start { id: id@ },
            Request::Stop { id, timeout, force, signal } => RequestView::Stop {
                id: id@,
                timeout: *timeout,
                force: *force,
                signal: signal@,
            },
            Request::Remove { id, force } => RequestView::Remove { id: id@, force: *force },
        }
    }
}

/// What the control plane answers to a call that succeeded.
#[derive(Debug, PartialEq, Eq)]
pub enum Response {
    /// The answer to `List`: the containers that exist, in the order
    /// reported.
    Listed(Vec<Container>),
    /// The answer to `Create`: the container made, where it is reported.
    Created(Option<Container>),
    /// The answer to `Start`, `Stop` and `Remove`.
    Acknowledged,
}

pub enum ResponseView {
    Listed(Seq<ContainerView>),
    Created(Option<ContainerView>),
    Acknowledged,
}

impl View for Response {
    type V = ResponseView;

    open spec fn view(&self) -> ResponseView {
        match self {
            Response::Listed(containers) => ResponseView::Listed(containers_view(containers@)),
            Response::Created(made) => ResponseView::Created(
                match made {
                    Some(container) => Some(container@),
                    None => None,
                },
            ),
            Response::Acknowledged => ResponseView::Acknowledged,
        }
    }
}

/// The failure of one call to the control plane.
#[derive(Debug, PartialEq, Eq)]
pub struct RpcError {
    pub code: i32,
    pub message: String,
}

pub struct RpcErrorView {
    pub code: i32,
    pub message: Seq<char>,
}

impl View for RpcError {
    type V = RpcErrorView;

    open spec fn view(&self) -> RpcErrorView {
        RpcErrorView { code: self.code, message: self.message@ }
    }
}

/// Why a reconciliation ended without success.
#[derive(Debug, PartialEq, Eq)]
pub enum ReconcileError {
    /// A call to the control plane failed.
    Rpc(RpcError),
    /// A reply came that no call was waiting for, or `List` was answered by
    /// something other than a list.
    UnexpectedReply,
}

pub enum ReconcileErrorView {
    Rpc(RpcErrorView),
    UnexpectedReply,
}

impl View for ReconcileError {
    type V = ReconcileErrorView;

    open spec fn view(&self) -> ReconcileErrorView {
        match self {
            ReconcileError::Rpc(e) => ReconcileErrorView::Rpc(e@),
            ReconcileError::UnexpectedReply => ReconcileErrorView::UnexpectedReply,
        }
    }
}

/// A call that a reconciliation has planned.
#[derive(Debug, PartialEq, Eq)]
pub enum Call {
    Stop(String),
    Remove(String),
    Create(Container),
    /// Start the container that the preceding `Create` made.
    StartCreated,
    Start(String),
}

pub enum CallView {
    Stop(Seq<char>),
    Remove(Seq<char>),
    Create(ContainerView),
    StartCreated,
    Start(Seq<char>),
}

impl View for Call {
    type V = CallView;

    open spec fn view(&self) -> CallView {
        match self {
            Call::Stop(id) => CallView::Stop(id@),
            Call::Remove(id) => CallView::Remove(id@),
            Call::Create(container) => CallView::Create(container@),
            Call::StartCreated => CallView::StartCreated,
            Call::Start(id) => CallView::Start(id@),
        }
    }
}

/// The views of a list of planned calls.
pub open spec fn calls_view(calls: Seq<Call>) -> Seq<CallView> {
    Seq::new(calls.len(), |i: int| calls[i]@)
}

/// The first container of the list that carries the name.
pub open spec fn first_named(containers: Seq<ContainerView>, name: Seq<char>) -> Option<
    ContainerView,
>
    decreases containers.len(),
{
    if containers.len() == 0 {
        None
    } else if containers[0].name == name {
        Some(containers[0])
    } else {
        first_named(containers.drop_first(), name)
    }
}

/// The calls that create the desired container and start it.
pub open spec fn creation_plan(desired: ContainerView) -> Seq<CallView> {
    seq![CallView::Create(desired), CallView::StartCreated]
}

/// The calls that bring an existing container in line with the desired one.
/// Without recreation the existing container is started where it does not
/// run, and otherwise left alone. With recreation it is stopped where it
/// runs, then removed, and the desired container is created and started.
pub open spec fn existing_plan(desired: ContainerView, existing: ContainerView, recreate: bool)
    -> Seq<CallView> {
    if !recreate {
        if is_running(existing) {
            Seq::empty()
        } else {
            seq![CallView::Start(existing.id)]
        }
    } else if is_running(existing) {
        seq![CallView::Stop(existing.id), CallView::Remove(existing.id)] + creation_plan(desired)
    } else {
        seq![CallView::Remove(existing.id)] + creation_plan(desired)
    }
}

/// The calls that reconcile the desired container with the existing one of
/// the same name, if there is one.
pub open spec fn reconcile_plan(
    desired: ContainerView,
    existing: Option<ContainerView>,
    recreate: bool,
) -> Seq<CallView> {
    match existing {
        Some(existing) => existing_plan(desired, existing, recreate),
        None => creation_plan(desired),
    }
}

/// The request that starts a container.
pub fn start(id: &str) -> (request: Request)
    ensures
        request@ == (RequestView::Start { id: id@ }),
{
    Request::Start { id: id.to_owned() }
}

/// The request that stops a container: after `timeout` seconds it is killed.
pub fn stop(id: &str, timeout: i64) -> (request: Request)
    ensures
        request@ == (RequestView::Stop { id: id@, timeout, force: true, signal: "SIGTERM"@ }),
{
    Request::Stop { id: id.to_owned(), timeout, force: true, signal: "SIGTERM".to_owned() }
}

/// The request that removes a container, running or not.
pub fn remove(id: &str) -> (request: Request)
    ensures
        request@ == (RequestView::Remove { id: id@, force: true }),
{
    Request::Remove { id: id.to_owned(), force: true }
}

/// Plans the calls for a desired container that does not exist yet.
pub fn deploy_new(new_cont: Container) -> (plan: Vec<Call>)
    ensures
        calls_view(plan@) == creation_plan(new_cont@),
        plan.len() == 2,
{
    let mut plan: Vec<Call> = Vec::new();
    plan.push(Call::Create(new_cont));
    plan.push(Call::StartCreated);
    plan
}

/// Plans the calls for a desired container of which an instance exists.
pub fn handle_existing(new_cont: Container, existing_cont: &Container, recreate: bool) -> (plan:
    Vec<Call>)
    ensures
        calls_view(plan@) == existing_plan(new_cont@, existing_cont@, recreate),
        plan.len() == existing_plan(new_cont@, existing_cont@, recreate).len(),
{
    let mut plan: Vec<Call> = Vec::new();
    if !recreate {
        if !container_running(existing_cont) {
            plan.push(Call::Start(existing_cont.id.clone()));
        }
        return plan;
    }
    if container_running(existing_cont) {
        plan.push(Call::Stop(existing_cont.id.clone()));
    }
    plan.push(Call::Remove(existing_cont.id.clone()));
    plan.push(Call::Create(new_cont));
    plan.push(Call::StartCreated);
    plan
}

/// The index of the first container that carries the name.
pub fn find_named(containers: &Vec<Container>, name: &str) -> (found: Option<usize>)
    ensures
        found matches Some(at) ==> at < containers.len() && first_named(
            containers_view(containers@),
            name@,
        ) == Some(containers[at as int]@),
        found is None ==> first_named(containers_view(containers@), name@) is None,
{
    let ghost all = containers_view(containers@);
    let mut at: usize = 0;
    assert(all.skip(0) =~= all);
    while at < containers.len()
        invariant
            at <= containers.len(),
            all == containers_view(containers@),
            first_named(all, name@) == first_named(all.skip(at as int), name@),
        decreases containers.len() - at,
    {
        if same_text(containers[at].name.as_str(), name) {
            return Some(at);
        }
        assert(all.skip(at as int).drop_first() =~= all.skip(at + 1));
        at += 1;
    }
    None
}

/// What a reconciliation asks of its caller.
#[derive(Debug, PartialEq, Eq)]
pub enum Step {
    /// Make this call and hand back its reply.
    Call(Request),
    /// The reconciliation is over.
    Finished(Result<(), ReconcileError>),
}

pub enum StepView {
    Call(RequestView),
    Finished(Result<(), ReconcileErrorView>),
}

impl View for Step {
    type V = StepView;

    open spec fn view(&self) -> StepView {
        match self {
            Step::Call(request) => StepView::Call(request@),
            Step::Finished(Ok(())) => StepView::Finished(Ok(())),
            Step::Finished(Err(e)) => StepView::Finished(Err(e@)),
        }
    }
}

/// The reconciliation of one desired container.
#[derive(Debug, PartialEq, Eq)]
pub enum Reconciliation {
    /// `List` was called; its reply decides the plan.
    Listing { desired: Container, recreate: bool },
    /// A planned call was made; `pending` are the calls that follow it.
    Calling { pending: Vec<Call> },
    /// Nothing is left to do.
    Finished,
}

pub enum ReconciliationView {
    Listing { desired: ContainerView, recreate: bool },
    Calling { pending: Seq<CallView> },
    Finished,
}

impl View for Reconciliation {
    type V = ReconciliationView;

    open spec fn view(&self) -> ReconciliationView {
        match self {
            Reconciliation::Listing { desired, recreate } => ReconciliationView::Listing {
                desired: desired@,
                recreate: *recreate,
            },
            Reconciliation::Calling { pending } => ReconciliationView::Calling {
                pending: calls_view(pending@),
            },
            Reconciliation::Finished => ReconciliationView::Finished,
        }
    }
}

/// The view of a reply, successful or failed.
pub open spec fn reply_view(reply: Result<Response, RpcError>) -> Result<
    ResponseView,
    RpcErrorView,
> {
    match reply {
        Ok(response) => Ok(response@),
        Err(e) => Err(e@),
    }
}

/// The id of the container that a reply to `Create` reports, empty where it
/// reports none.
pub open spec fn created_id(reply: ResponseView) -> Seq<char> {
    match reply {
        ResponseView::Created(Some(container)) => container.id,
        _ => Seq::empty(),
    }
}

/// The request that makes a planned call, given the reply to the call before
/// it.
pub open spec fn request_for(call: CallView, reply: ResponseView) -> RequestView {
    match call {
        CallView::Stop(id) => RequestView::Stop {
            id,
            timeout: STOP_TIMEOUT,
            force: true,
            signal: "SIGTERM"@,
        },
        CallView::Remove(id) => RequestView::Remove { id, force: true },
        CallView::Create(container) => RequestView::Create(container),
        CallView::StartCreated => RequestView::Start { id: created_id(reply) },
        CallView::Start(id) => RequestView::Start { id },
    }
}

/// The step after a successful reply, with `pending` still to call: the first
/// pending call is made, or the reconciliation has succeeded.
pub open spec fn proceed(pending: Seq<CallView>, reply: ResponseView) -> (
    ReconciliationView,
    StepView,
) {
    if pending.len() == 0 {
        (ReconciliationView::Finished, StepView::Finished(Ok(())))
    } else {
        (
            ReconciliationView::Calling { pending: pending.drop_first() },
            StepView::Call(request_for(pending[0], reply)),
        )
    }
}

/// The state and the step that follow a reply. A failed call ends the
/// reconciliation with that failure. The list decides the plan, by the first
/// container that carries the desired name; every later reply lets the next
/// planned call go out.
pub open spec fn next(state: ReconciliationView, reply: Result<ResponseView, RpcErrorView>) -> (
    ReconciliationView,
    StepView,
) {
    match state {
        ReconciliationView::Finished => (
            ReconciliationView::Finished,
            StepView::Finished(Err(ReconcileErrorView::UnexpectedReply)),
        ),
        ReconciliationView::Listing { desired, recreate } => match reply {
            Ok(ResponseView::Listed(containers)) => proceed(
                reconcile_plan(desired, first_named(containers, desired.name), recreate),
                ResponseView::Listed(containers),
            ),
            Ok(_) => (
                ReconciliationView::Finished,
                StepView::Finished(Err(ReconcileErrorView::UnexpectedReply)),
            ),
            Err(e) => (
                ReconciliationView::Finished,
                StepView::Finished(Err(ReconcileErrorView::Rpc(e))),
            ),
        },
        ReconciliationView::Calling { pending } => match reply {
            Ok(response) => proceed(pending, response),
            Err(e) => (
                ReconciliationView::Finished,
                StepView::Finished(Err(ReconcileErrorView::Rpc(e))),
            ),
        },
    }
}

/// The requests that go out while the replies come in, one after the other,
/// starting in `state`.
pub open spec fn requests(
    state: ReconciliationView,
    replies: Seq<Result<ResponseView, RpcErrorView>>,
) -> Seq<RequestView>
    decreases replies.len(),
{
    if replies.len() == 0 {
        Seq::empty()
    } else {
        match next(state, replies[0]) {
            (following, StepView::Call(request)) => seq![request] + requests(
                following,
                replies.drop_first(),
            ),
            (_, StepView::Finished(_)) => Seq::empty(),
        }
    }
}

/// Whether the request creates or removes a container.
pub open spec fn creates_or_removes(request: RequestView) -> bool {
    request is Create || request is Remove
}

impl Reconciliation {
    /// Starts the reconciliation of `desired`: the first call lists what
    /// exists.
    pub fn begin(desired: Container, recreate: bool) -> (begun: (Reconciliation, Request))
        ensures
            begun.0@ == (ReconciliationView::Listing { desired: desired@, recreate }),
            begun.1@ == RequestView::List,
    {
        (Reconciliation::Listing { desired, recreate }, Request::List)
    }

    /// Takes the reply to the call last asked for and answers with the step
    /// that follows.
    pub fn advance(self, reply: Result<Response, RpcError>) -> (advanced: (Reconciliation, Step))
        ensures
            (advanced.0@, advanced.1@) == next(self@, reply_view(reply)),
    {
        match self {
            Reconciliation::Finished => (
                Reconciliation::Finished,
                Step::Finished(Err(ReconcileError::UnexpectedReply)),
            ),
            Reconciliation::Listing { desired, recreate } => match reply {
                Ok(Response::Listed(containers)) => {
                    let plan = match find_named(&containers, desired.name.as_str()) {
                        Some(at) => handle_existing(desired, &containers[at], recreate),
                        None => deploy_new(desired),
                    };
                    dispatch(plan, &Response::Listed(containers))
                },
                Ok(_) => (
                    Reconciliation::Finished,
                    Step::Finished(Err(ReconcileError::UnexpectedReply)),
                ),
                Err(e) => (Reconciliation::Finished, Step::Finished(Err(ReconcileError::Rpc(e)))),
            },
            Reconciliation::Calling { pending } => match reply {
                Ok(response) => dispatch(pending, &response),
                Err(e) => (Reconciliation::Finished, Step::Finished(Err(ReconcileError::Rpc(e)))),
            },
        }
    }
}

/// Makes the first pending call, or ends the reconciliation with success.
fn dispatch(pending: Vec<Call>, reply: &Response) -> (advanced: (Reconciliation, Step))
    ensures
        (advanced.0@, advanced.1@) == proceed(calls_view(pending@), reply@),
{
    let mut pending = pending;
    if pending.len() == 0 {
        return (Reconciliation::Finished, Step::Finished(Ok(())));
    }
    let ghost before = calls_view(pending@);
    let call = pending.remove(0);
    assert(calls_view(pending@) =~= before.drop_first());
    let request = match call {
        Call::Stop(id) => stop(id.as_str(), STOP_TIMEOUT),
        Call::Remove(id) => remove(id.as_str()),
        Call::Create(container) => Request::Create(container),
        Call::StartCreated => match reply {
            Response::Created(Some(container)) => start(container.id.as_str()),
            _ => {
                proof {
                    reveal_strlit("");
                    assert(""@ =~= Seq::<char>::empty());
                }
                start("")
            },
        },
        Call::Start(id) => start(id.as_str()),
    };
    (Reconciliation::Calling { pending }, Step::Call(request))
}

/// Without recreation, an existing container of the desired name is never
/// created anew or removed, whatever the replies are: the only call that can
/// follow the list is the start of that container, and it is made exactly
/// where the container does not run.
pub proof fn law_existing_kept(
    desired: ContainerView,
    containers: Seq<ContainerView>,
    existing: ContainerView,
    replies: Seq<Result<ResponseView, RpcErrorView>>,
)
    requires
        first_named(containers, desired.name) == Some(existing),
    ensures
        ({
            let sent = requests(
                ReconciliationView::Listing { desired, recreate: false },
                seq![Ok(ResponseView::Listed(containers))] + replies,
            );
            &&& forall|i: int| 0 <= i < sent.len() ==> !creates_or_removes(#[trigger] sent[i])
            &&& sent == if is_running(existing) {
                Seq::<RequestView>::empty()
            } else {
                seq![RequestView::Start { id: existing.id }]
            }
        }),
{
    let all = seq![Ok(ResponseView::Listed(containers))] + replies;
    assert(all.drop_first() =~= replies);
    if !is_running(existing) {
        let after = ReconciliationView::Calling { pending: Seq::<CallView>::empty() };
        assert(seq![CallView::Start(existing.id)].drop_first() =~= Seq::<CallView>::empty());
        assert(requests(after, replies) =~= Seq::<RequestView>::empty());
    }
}

/// With recreation, an existing container of the desired name is replaced in
/// this order while every call succeeds: it is stopped if and only if it
/// runs, then removed, then the desired container is created, and then the
/// container that the creation reported is started. The start goes out only
/// in answer to the reply to the creation.
pub proof fn law_recreate_order(
    desired: ContainerView,
    containers: Seq<ContainerView>,
    existing: ContainerView,
    stopped: ResponseView,
    removed: ResponseView,
    created: ResponseView,
)
    requires
        first_named(containers, desired.name) == Some(existing),
    ensures
        is_running(existing) ==> requests(
            ReconciliationView::Listing { desired, recreate: true },
            seq![Ok(ResponseView::Listed(containers)), Ok(stopped), Ok(removed), Ok(created)],
        ) == seq![
            RequestView::Stop {
                id: existing.id,
                timeout: STOP_TIMEOUT,
                force: true,
                signal: "SIGTERM"@,
            },
            RequestView::Remove { id: existing.id, force: true },
            RequestView::Create(desired),
            RequestView::Start { id: created_id(created) },
        ],
        !is_running(existing) ==> requests(
            ReconciliationView::Listing { desired, recreate: true },
            seq![Ok(ResponseView::Listed(containers)), Ok(removed), Ok(created)],
        ) == seq![
            RequestView::Remove { id: existing.id, force: true },
            RequestView::Create(desired),
            RequestView::Start { id: created_id(created) },
        ],
{
    let start = ReconciliationView::Listing { desired, recreate: true };
    let listed: Result<ResponseView, RpcErrorView> = Ok(ResponseView::Listed(containers));
    let create_and_start = creation_plan(desired);
    let tail = seq![Ok::<ResponseView, RpcErrorView>(created)];
    let s3 = ReconciliationView::Calling { pending: Seq::<CallView>::empty() };
    let s2 = ReconciliationView::Calling { pending: seq![CallView::StartCreated] };
    let s1 = ReconciliationView::Calling { pending: create_and_start };
    assert(seq![CallView::StartCreated].drop_first() =~= Seq::<CallView>::empty());
    assert(create_and_start.drop_first() =~= seq![CallView::StartCreated]);
    assert(requests(s3, tail.drop_first()) =~= Seq::<RequestView>::empty());
    assert(requests(s2, tail) =~= seq![RequestView::Start { id: created_id(created) }]);
    let tail2 = seq![Ok::<ResponseView, RpcErrorView>(removed), Ok(created)];
    assert(tail2.drop_first() =~= tail);
    assert(requests(s1, tail2) =~= seq![
        RequestView::Create(desired),
        RequestView::Start { id: created_id(created) },
    ]);
    if is_running(existing) {
        let plan = existing_plan(desired, existing, true);
        let s0 = ReconciliationView::Calling {
            pending: seq![CallView::Remove(existing.id)] + create_and_start,
        };
        assert(plan.drop_first() =~= seq![CallView::Remove(existing.id)] + create_and_start);
        assert((seq![CallView::Remove(existing.id)] + create_and_start).drop_first()
            =~= create_and_start);
        let tail3 = seq![Ok::<ResponseView, RpcErrorView>(stopped), Ok(removed), Ok(created)];
        assert(tail3.drop_first() =~= tail2);
        assert(requests(s0, tail3) =~= seq![
            RequestView::Remove { id: existing.id, force: true },
            RequestView::Create(desired),
            RequestView::Start { id: created_id(created) },
        ]);
        let all = seq![listed, Ok(stopped), Ok(removed), Ok(created)];
        assert(all.drop_first() =~= tail3);
        assert(requests(start, all) =~= seq![
            RequestView::Stop {
                id: existing.id,
                timeout: STOP_TIMEOUT,
                force: true,
                signal: "SIGTERM"@,
            },
            RequestView::Remove { id: existing.id, force: true },
            RequestView::Create(desired),
            RequestView::Start { id: created_id(created) },
        ]);
    } else {
        let plan = existing_plan(desired, existing, true);
        assert(plan.drop_first() =~= create_and_start);
        let all = seq![listed, Ok(removed), Ok(created)];
        assert(all.drop_first() =~= tail2);
        assert(requests(start, all) =~= seq![
            RequestView::Remove { id: existing.id, force: true },
            RequestView::Create(desired),
            RequestView::Start { id: created_id(created) },
        ]);
    }
}

/// A failed call is the last thing a reconciliation hears of: it ends with
/// that failure, and whatever is handed to it afterwards leads to no call.
pub proof fn law_failure_ends(
    state: ReconciliationView,
    failure: RpcErrorView,
    later: Result<ResponseView, RpcErrorView>,
)
    requires
        !(state is Finished),
    ensures
        next(state, Err(failure)) == (
            ReconciliationView::Finished,
            StepView::Finished(Err(ReconcileErrorView::Rpc(failure))),
        ),
        next(ReconciliationView::Finished, later).0 is Finished,
        next(ReconciliationView::Finished, later).1 is Finished,
{
}

} // verus!
