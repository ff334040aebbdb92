//! What the dashboard asks of the control plane, and what it gets back.

use crate::container::Container;
use crate::containers_table_view::ContainersTable;
use crate::kantui_config::AppConfig;
use vstd::prelude::*;
use vstd::string::StringExecFns;

verus! {

/// Takes a value off the caller's hands. It is for results of attempts that
/// may fail without consequence.
pub fn try_best<T>(err: T) {
    let _ = err;
}

/// A request of the dashboard.
#[derive(Debug, PartialEq, Eq)]
pub enum KantoRequest {
    ListContainers,
    /// Name and registry.
    _CreateContainer(String, String),
    /// Id.
    StartContainer(String),
    /// Id and timeout in seconds.
    StopContainer(String, i64),
    /// Id.
    RemoveContainer(String),
    /// Id and number of lines from the end.
    GetLogs(String, i32),
    /// Id.
    GetFullContainerState(String),
    Redeploy,
}

/// An answer to the dashboard.
#[derive(Debug, PartialEq, Eq)]
pub enum KantoResponse {
    ListContainers(Vec<Container>),
    GetLogs(String),
    GetFullContainerState(Container),
}

/// How urgent a message between the dashboard and its worker is.
#[derive(PartialOrd, Ord, PartialEq, Eq, Debug, Clone, Copy)]
pub enum RequestPriority {
    Low,
    Normal,
    _High,
}

impl RequestPriority {
    /// The weight of the priority: a message of greater weight goes first.
    pub fn weight(&self) -> (weight: u8)
        ensures
            weight == match self {
                RequestPriority::Low => 0u8,
                RequestPriority::Normal => 10u8,
                RequestPriority::_High => 50u8,
            },
    {
        match self {
            RequestPriority::Low => 0,
            RequestPriority::Normal => 10,
            RequestPriority::_High => 50,
        }
    }
}

/// What the user of the dashboard asks for.
#[derive(Debug, PartialEq, Eq, Clone, Copy, Structural)]
pub enum Command {
    Start,
    Stop,
    Remove,
    Logs,
    Describe,
    Redeploy,
    /// The list of containers is due again.
    Refresh,
}

impl Command {
    /// Whether the command is about the container that is selected in the
    /// table.
    pub open spec fn needs_selection(self) -> bool {
        !(self is Redeploy || self is Refresh)
    }
}

/// The request that carries out a command, with its priority. A command
/// about the selected container leads to nothing where none is selected.
pub fn request_for(command: Command, selected: Option<&ContainersTable>, config: &AppConfig) -> (request:
    Option<(KantoRequest, RequestPriority)>)
    ensures
        request is None <==> command.needs_selection() && selected is None,
        request matches Some((_, priority)) ==> priority == if command is Refresh {
            RequestPriority::Low
        } else {
            RequestPriority::Normal
        },
        request matches Some((wanted, _)) ==> match command {
            Command::Refresh => wanted == KantoRequest::ListContainers,
            Command::Redeploy => wanted == KantoRequest::Redeploy,
            Command::Start => wanted == KantoRequest::StartContainer(selected->Some_0.id),
            Command::Stop => wanted == KantoRequest::StopContainer(
                selected->Some_0.id,
                config.stop_timeout as i64,
            ),
            Command::Remove => wanted == KantoRequest::RemoveContainer(selected->Some_0.id),
            Command::Logs => wanted == KantoRequest::GetLogs(
                selected->Some_0.id,
                config.log_tail_lines as i32,
            ),
            Command::Describe => wanted == KantoRequest::GetFullContainerState(
                selected->Some_0.id,
            ),
        },
{
    match command {
        Command::Refresh => Some((KantoRequest::ListContainers, RequestPriority::Low)),
        Command::Redeploy => Some((KantoRequest::Redeploy, RequestPriority::Normal)),
        _ => match selected {
            None => None,
            Some(c) => {
                let id = c.id.clone();
                let wanted = match command {
                    Command::Start => KantoRequest::StartContainer(id),
                    Command::Stop => KantoRequest::StopContainer(id, config.stop_timeout as i64),
                    Command::Remove => KantoRequest::RemoveContainer(id),
                    Command::Logs => KantoRequest::GetLogs(
                        id,
                        #[verifier::truncate]
                        (config.log_tail_lines as i32),
                    ),
                    _ => KantoRequest::GetFullContainerState(id),
                };
                Some((wanted, RequestPriority::Normal))
            },
        },
    }
}

/// What the worker of the dashboard found when it carried out a request.
#[derive(Debug, PartialEq, Eq)]
pub enum Finding {
    /// The containers that exist, or why they could not be listed.
    Listed(Result<Vec<Container>, String>),
    /// The log of a container, or why it could not be had.
    Logs(Result<String, String>),
    /// The state of a container, or why it could not be had.
    Inspected(Result<Container, String>),
    /// The request asked for no answer; whether it went well does not
    /// matter.
    Nothing,
}

/// What the worker of the dashboard does with a finding.
#[derive(Debug, PartialEq, Eq)]
pub enum Reaction {
    /// Send the response with the priority. Where `must_arrive` is set, a
    /// response that cannot be sent ends the worker.
    Answer { response: KantoResponse, priority: RequestPriority, must_arrive: bool },
    /// Go on with the next request.
    Ignore,
    /// End the worker with this failure.
    Fail(String),
}

/// Decides what to do with a finding. A list that cannot be had ends the
/// worker, and so does a state that cannot be had; a log that cannot be had
/// is answered by a note in its place.
pub fn process_request(finding: Finding) -> (reaction: Reaction)
    ensures
        match finding {
            Finding::Listed(Ok(containers)) => reaction == (Reaction::Answer {
                response: KantoResponse::ListContainers(containers),
                priority: RequestPriority::Low,
                must_arrive: true,
            }),
            Finding::Listed(Err(cause)) => reaction == Reaction::Fail(cause),
            Finding::Logs(Ok(log)) => reaction == (Reaction::Answer {
                response: KantoResponse::GetLogs(log),
                priority: RequestPriority::Normal,
                must_arrive: false,
            }),
            Finding::Logs(Err(cause)) => reaction matches Reaction::Answer {
                response: KantoResponse::GetLogs(note),
                priority: RequestPriority::Normal,
                must_arrive: false,
            } && note@ == "Could not get logs: "@ + cause@,
            Finding::Inspected(Ok(container)) => reaction == (Reaction::Answer {
                response: KantoResponse::GetFullContainerState(container),
                priority: RequestPriority::Normal,
                must_arrive: false,
            }),
            Finding::Inspected(Err(cause)) => reaction == Reaction::Fail(cause),
            Finding::Nothing => reaction == Reaction::Ignore,
        },
{
    match finding {
        Finding::Listed(Ok(containers)) => Reaction::Answer {
            response: KantoResponse::ListContainers(containers),
            priority: RequestPriority::Low,
            must_arrive: true,
        },
        Finding::Listed(Err(cause)) => Reaction::Fail(cause),
        Finding::Logs(Ok(log)) => Reaction::Answer {
            response: KantoResponse::GetLogs(log),
            priority: RequestPriority::Normal,
            must_arrive: false,
        },
        Finding::Logs(Err(cause)) => {
            let mut note = "Could not get logs: ".to_owned();
            note.append(cause.as_str());
            Reaction::Answer {
                response: KantoResponse::GetLogs(note),
                priority: RequestPriority::Normal,
                must_arrive: false,
            }
        },
        Finding::Inspected(Ok(container)) => Reaction::Answer {
            response: KantoResponse::GetFullContainerState(container),
            priority: RequestPriority::Normal,
            must_arrive: false,
        },
        Finding::Inspected(Err(cause)) => Reaction::Fail(cause),
        Finding::Nothing => Reaction::Ignore,
    }
}

} // verus!
