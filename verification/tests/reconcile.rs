use kanto_auto_deployer::container::{container_running, Container, State};
use kanto_auto_deployer::reconcile::{
    deploy_new, find_named, handle_existing, remove, start, stop, Call, ReconcileError,
    Reconciliation, Request, Response, RpcError, Step, STOP_TIMEOUT,
};

fn container(name: &str, id: &str, running: Option<bool>) -> Container {
    Container {
        id: id.to_string(),
        name: name.to_string(),
        image: None,
        host_name: String::new(),
        domain_name: String::new(),
        mounts: vec![],
        config: None,
        host_config: None,
        state: running.map(|running| State { running, status: String::new(), exit_code: 0 }),
    }
}

/// Runs a reconciliation against replies that all succeed and returns the
/// requests it made after the list, with how it ended.
fn run(desired: Container, existing: Vec<Container>, recreate: bool) -> (Vec<Request>, Result<(), ReconcileError>) {
    let (mut reconciliation, first) = Reconciliation::begin(desired, recreate);
    assert_eq!(first, Request::List);
    let mut reply = Response::Listed(existing);
    let mut sent = Vec::new();
    loop {
        let (next, step) = reconciliation.advance(Ok(reply));
        reconciliation = next;
        match step {
            Step::Finished(result) => return (sent, result),
            Step::Call(request) => {
                reply = match &request {
                    Request::Create(c) => Response::Created(Some(container(&c.name, "new-id", None))),
                    _ => Response::Acknowledged,
                };
                sent.push(request);
            }
        }
    }
}

#[test]
fn new_container_is_created_and_started() {
    let (sent, result) = run(container("a", "", None), vec![container("b", "1", Some(true))], false);
    assert_eq!(result, Ok(()));
    assert_eq!(
        sent,
        vec![Request::Create(container("a", "", None)), Request::Start { id: "new-id".to_string() }]
    );
}

#[test]
fn running_container_is_left_alone() {
    let (sent, result) = run(container("a", "", None), vec![container("a", "7", Some(true))], false);
    assert_eq!(result, Ok(()));
    assert!(sent.is_empty());
}

#[test]
fn stopped_container_is_started() {
    for state in [Some(false), None] {
        let (sent, result) = run(container("a", "", None), vec![container("a", "7", state)], false);
        assert_eq!(result, Ok(()));
        assert_eq!(sent, vec![Request::Start { id: "7".to_string() }]);
    }
}

#[test]
fn running_container_is_recreated_in_order() {
    let (sent, result) = run(container("a", "", None), vec![container("a", "7", Some(true))], true);
    assert_eq!(result, Ok(()));
    assert_eq!(
        sent,
        vec![
            Request::Stop { id: "7".to_string(), timeout: 1, force: true, signal: "SIGTERM".to_string() },
            Request::Remove { id: "7".to_string(), force: true },
            Request::Create(container("a", "", None)),
            Request::Start { id: "new-id".to_string() },
        ]
    );
}

#[test]
fn stopped_container_is_recreated_without_a_stop() {
    let (sent, result) = run(container("a", "", None), vec![container("a", "7", Some(false))], true);
    assert_eq!(result, Ok(()));
    assert_eq!(
        sent,
        vec![
            Request::Remove { id: "7".to_string(), force: true },
            Request::Create(container("a", "", None)),
            Request::Start { id: "new-id".to_string() },
        ]
    );
}

#[test]
fn first_of_two_containers_with_the_name_counts() {
    let existing = vec![
        container("x", "0", Some(true)),
        container("a", "1", Some(false)),
        container("a", "2", Some(true)),
    ];
    assert_eq!(find_named(&existing, "a"), Some(1));
    assert_eq!(find_named(&existing, "none"), None);
    let (sent, _) = run(container("a", "", None), existing, false);
    assert_eq!(sent, vec![Request::Start { id: "1".to_string() }]);
}

#[test]
fn failed_call_ends_the_reconciliation() {
    let failure = RpcError { code: 14, message: "unavailable".to_string() };
    let (reconciliation, _) = Reconciliation::begin(container("a", "", None), true);
    let (reconciliation, step) =
        reconciliation.advance(Ok(Response::Listed(vec![container("a", "7", Some(true))])));
    assert!(matches!(step, Step::Call(Request::Stop { .. })));
    let (reconciliation, step) = reconciliation.advance(Ok(Response::Acknowledged));
    assert!(matches!(step, Step::Call(Request::Remove { .. })));
    let (reconciliation, step) = reconciliation.advance(Err(RpcError { code: 14, message: "unavailable".to_string() }));
    assert_eq!(step, Step::Finished(Err(ReconcileError::Rpc(failure))));
    assert_eq!(reconciliation, Reconciliation::Finished);
    let (_, step) = reconciliation.advance(Ok(Response::Acknowledged));
    assert_eq!(step, Step::Finished(Err(ReconcileError::UnexpectedReply)));
}

#[test]
fn failed_list_ends_the_reconciliation() {
    let (reconciliation, _) = Reconciliation::begin(container("a", "", None), false);
    let (_, step) = reconciliation.advance(Err(RpcError { code: 2, message: "no".to_string() }));
    assert_eq!(
        step,
        Step::Finished(Err(ReconcileError::Rpc(RpcError { code: 2, message: "no".to_string() })))
    );
}

#[test]
fn list_answered_by_something_else_is_refused() {
    let (reconciliation, _) = Reconciliation::begin(container("a", "", None), false);
    let (_, step) = reconciliation.advance(Ok(Response::Acknowledged));
    assert_eq!(step, Step::Finished(Err(ReconcileError::UnexpectedReply)));
}

#[test]
fn creation_without_a_reported_container_starts_the_empty_id() {
    let (reconciliation, _) = Reconciliation::begin(container("a", "", None), false);
    let (reconciliation, step) = reconciliation.advance(Ok(Response::Listed(vec![])));
    assert!(matches!(step, Step::Call(Request::Create(_))));
    let (_, step) = reconciliation.advance(Ok(Response::Created(None)));
    assert_eq!(step, Step::Call(Request::Start { id: String::new() }));
}

#[test]
fn requests_are_built_as_the_control_plane_wants_them() {
    assert_eq!(STOP_TIMEOUT, 1);
    assert_eq!(start("x"), Request::Start { id: "x".to_string() });
    assert_eq!(
        stop("x", 5),
        Request::Stop { id: "x".to_string(), timeout: 5, force: true, signal: "SIGTERM".to_string() }
    );
    assert_eq!(remove("x"), Request::Remove { id: "x".to_string(), force: true });
}

#[test]
fn plans_are_as_described() {
    assert_eq!(
        deploy_new(container("a", "", None)),
        vec![Call::Create(container("a", "", None)), Call::StartCreated]
    );
    let existing = container("a", "7", Some(true));
    assert_eq!(handle_existing(container("a", "", None), &existing, false), vec![]);
    assert_eq!(
        handle_existing(container("a", "", None), &existing, true),
        vec![
            Call::Stop("7".to_string()),
            Call::Remove("7".to_string()),
            Call::Create(container("a", "", None)),
            Call::StartCreated
        ]
    );
    let stopped = container("a", "7", Some(false));
    assert_eq!(
        handle_existing(container("a", "", None), &stopped, false),
        vec![Call::Start("7".to_string())]
    );
}

#[test]
fn container_without_state_does_not_run() {
    assert!(!container_running(&container("a", "1", None)));
    assert!(!container_running(&container("a", "1", Some(false))));
    assert!(container_running(&container("a", "1", Some(true))));
}
