use kanto_auto_deployer::blueprint_fetchers::{http_single_file, FetcherKind};
use kanto_auto_deployer::cli::{CliArgs, MQTTconfig};
use kanto_auto_deployer::container::{Container, Image, State};
use kanto_auto_deployer::containers_table_view::{
    items_to_columns, state_to_string, ContainerColumn, ContainersTable,
};
use kanto_auto_deployer::kanto_api::{
    create_container, get_logs, redeploy_containers, strip_and_push, KantoLogLine, LogError,
};
use kanto_auto_deployer::kantui::{
    process_request, request_for, try_best, Command, Finding, KantoRequest, KantoResponse,
    Reaction, RequestPriority,
};
use kanto_auto_deployer::kantui_config::{
    AppConfig, KbdEvent, KeyBindingError, KeyConfig, KeyEvent, ALT_REPR, CTRL_REPR,
};
use kanto_auto_deployer::retry::RetryTimes;
use std::cmp::Ordering;

fn container(id: &str, name: &str, image: Option<&str>, status: Option<&str>) -> Container {
    Container {
        id: id.to_string(),
        name: name.to_string(),
        image: image.map(|name| Image { name: name.to_string() }),
        host_name: String::new(),
        domain_name: String::new(),
        mounts: vec![],
        config: None,
        host_config: None,
        state: status.map(|s| State { running: s == "Running", status: s.to_string(), exit_code: 0 }),
    }
}

fn row(id: &str, name: &str, image: &str, state: &str) -> ContainersTable {
    ContainersTable {
        id: id.to_string(),
        name: name.to_string(),
        image: image.to_string(),
        state: state.to_string(),
    }
}

#[test]
fn rows_are_ordered_by_id() {
    let rows = items_to_columns(vec![
        container("c", "third", Some("img3"), Some("Running")),
        container("a", "first", None, None),
        container("b", "second", Some("img2"), Some("Stopped")),
    ]);
    assert_eq!(
        rows,
        vec![
            row("a", "first", "N/A", "Unknown?"),
            row("b", "second", "img2", "Stopped"),
            row("c", "third", "img3", "Running"),
        ]
    );
    assert_eq!(items_to_columns(vec![]), vec![]);
}

#[test]
fn rows_with_the_same_id_keep_their_order() {
    let rows = items_to_columns(vec![
        container("b", "1", None, None),
        container("a", "2", None, None),
        container("b", "3", None, None),
        container("a", "4", None, None),
        container("", "5", None, None),
    ]);
    let names: Vec<&str> = rows.iter().map(|r| r.name.as_str()).collect();
    assert_eq!(names, vec!["5", "2", "4", "1", "3"]);
}

#[test]
fn rows_agree_with_the_sort_of_the_standard_library() {
    let ids = ["b", "ab", "", "z", "a", "ä", "B", "10", "9", "a", "b"];
    let containers: Vec<Container> =
        ids.iter().enumerate().map(|(i, id)| container(id, &i.to_string(), None, None)).collect();
    let mut expected: Vec<(String, String)> =
        ids.iter().enumerate().map(|(i, id)| (id.to_string(), i.to_string())).collect();
    expected.sort_by(|a, b| a.0.cmp(&b.0));
    let rows: Vec<(String, String)> =
        items_to_columns(containers).into_iter().map(|r| (r.id, r.name)).collect();
    assert_eq!(rows, expected);
}

#[test]
fn row_shows_its_fields_in_the_columns() {
    let r = row("i", "n", "m", "s");
    assert_eq!(r.to_column(ContainerColumn::ID), "i");
    assert_eq!(r.to_column(ContainerColumn::Name), "n");
    assert_eq!(r.to_column(ContainerColumn::Image), "m");
    assert_eq!(r.to_column(ContainerColumn::State), "s");
    let other = row("j", "n", "a", "");
    assert_eq!(r.cmp(&other, ContainerColumn::ID), Ordering::Less);
    assert_eq!(r.cmp(&other, ContainerColumn::Name), Ordering::Equal);
    assert_eq!(r.cmp(&other, ContainerColumn::Image), Ordering::Greater);
    assert_eq!(r.cmp(&other, ContainerColumn::State), Ordering::Greater);
}

#[test]
fn state_without_report_is_unknown() {
    assert_eq!(state_to_string(&None), "Unknown?");
    assert_eq!(
        state_to_string(&Some(State { running: true, status: "Running".to_string(), exit_code: 0 })),
        "Running"
    );
}

fn binding(c: char) -> KbdEvent {
    KbdEvent { event: KeyEvent::Char(c) }
}

fn config() -> AppConfig {
    AppConfig {
        stop_timeout: 5,
        container_list_refresh_fps: 1,
        log_tail_lines: 50,
        socket_path: "/run/container-management/container-management.sock".to_string(),
        keyconfig: KeyConfig {
            start_btn_name: "[S]tart".to_string(),
            start_kbd_key: binding('s'),
            stop_btn_name: "Sto[P]".to_string(),
            stop_kbd_key: binding('p'),
            remove_btn_name: "[R]emove".to_string(),
            remove_kbd_key: binding('r'),
            logs_btn_name: "[L]ogs".to_string(),
            logs_kbd_key: binding('l'),
            help_btn_name: "[H]elp".to_string(),
            help_kbd_key: binding('h'),
            quit_btn_name: "[Q]uit".to_string(),
            quit_kbd_key: binding('q'),
            describe_btn_name: "[D]escribe".to_string(),
            describe_kbd_key: binding('d'),
            redeploy_btn_name: "Red[E]ploy".to_string(),
            redeploy_kbd_key: binding('e'),
            redeploy_command: "systemctl restart kanto-auto-deployer.service".to_string(),
        },
    }
}

#[test]
fn commands_become_requests() {
    let selected = row("7", "a", "img", "Running");
    let config = config();
    assert_eq!(
        request_for(Command::Start, Some(&selected), &config),
        Some((KantoRequest::StartContainer("7".to_string()), RequestPriority::Normal))
    );
    assert_eq!(
        request_for(Command::Stop, Some(&selected), &config),
        Some((KantoRequest::StopContainer("7".to_string(), 5), RequestPriority::Normal))
    );
    assert_eq!(
        request_for(Command::Remove, Some(&selected), &config),
        Some((KantoRequest::RemoveContainer("7".to_string()), RequestPriority::Normal))
    );
    assert_eq!(
        request_for(Command::Logs, Some(&selected), &config),
        Some((KantoRequest::GetLogs("7".to_string(), 50), RequestPriority::Normal))
    );
    assert_eq!(
        request_for(Command::Describe, Some(&selected), &config),
        Some((KantoRequest::GetFullContainerState("7".to_string()), RequestPriority::Normal))
    );
    assert_eq!(
        request_for(Command::Redeploy, None, &config),
        Some((KantoRequest::Redeploy, RequestPriority::Normal))
    );
    assert_eq!(
        request_for(Command::Refresh, None, &config),
        Some((KantoRequest::ListContainers, RequestPriority::Low))
    );
    for command in [Command::Start, Command::Stop, Command::Remove, Command::Logs, Command::Describe] {
        assert_eq!(request_for(command, None, &config), None);
    }
}

#[test]
fn findings_become_reactions() {
    assert_eq!(
        process_request(Finding::Listed(Ok(vec![]))),
        Reaction::Answer {
            response: KantoResponse::ListContainers(vec![]),
            priority: RequestPriority::Low,
            must_arrive: true
        }
    );
    assert_eq!(
        process_request(Finding::Listed(Err("gone".to_string()))),
        Reaction::Fail("gone".to_string())
    );
    assert_eq!(
        process_request(Finding::Logs(Ok("line".to_string()))),
        Reaction::Answer {
            response: KantoResponse::GetLogs("line".to_string()),
            priority: RequestPriority::Normal,
            must_arrive: false
        }
    );
    assert_eq!(
        process_request(Finding::Logs(Err("no such container".to_string()))),
        Reaction::Answer {
            response: KantoResponse::GetLogs("Could not get logs: no such container".to_string()),
            priority: RequestPriority::Normal,
            must_arrive: false
        }
    );
    assert_eq!(
        process_request(Finding::Inspected(Err("gone".to_string()))),
        Reaction::Fail("gone".to_string())
    );
    assert!(matches!(
        process_request(Finding::Inspected(Ok(container("1", "a", None, None)))),
        Reaction::Answer { response: KantoResponse::GetFullContainerState(_), must_arrive: false, .. }
    ));
    assert_eq!(process_request(Finding::Nothing), Reaction::Ignore);
}

#[test]
fn priorities_are_ordered_by_their_weight() {
    assert!(RequestPriority::Low < RequestPriority::Normal);
    assert!(RequestPriority::Normal < RequestPriority::_High);
    assert_eq!(RequestPriority::Low.weight(), 0);
    assert_eq!(RequestPriority::Normal.weight(), 10);
    assert_eq!(RequestPriority::_High.weight(), 50);
    try_best(Err::<(), &str>("ignored"));
}

#[test]
fn key_bindings_are_read_from_text() {
    assert_eq!(CTRL_REPR, '^');
    assert_eq!(ALT_REPR, '@');
    assert_eq!(KbdEvent::parse("s"), Ok(binding('s')));
    assert_eq!(KbdEvent::parse("  s x"), Ok(binding('s')));
    assert_eq!(KbdEvent::parse("^c"), Ok(KbdEvent { event: KeyEvent::CtrlChar('c') }));
    assert_eq!(KbdEvent::parse(" ^ \t c d"), Ok(KbdEvent { event: KeyEvent::CtrlChar('c') }));
    assert_eq!(KbdEvent::parse("@x"), Ok(KbdEvent { event: KeyEvent::AltChar('x') }));
    assert_eq!(KbdEvent::parse("ä@x"), Ok(KbdEvent { event: KeyEvent::AltChar('x') }));
    assert_eq!(KbdEvent::parse(""), Err(KeyBindingError::NoKey));
    assert_eq!(KbdEvent::parse(" \n\r\u{b}\u{c}ä"), Err(KeyBindingError::NoKey));
    assert_eq!(KbdEvent::parse("^"), Err(KeyBindingError::NoKeyAfter('^')));
    assert_eq!(KbdEvent::parse("@ "), Err(KeyBindingError::NoKeyAfter('@')));
}

#[test]
fn key_bindings_read_back_from_their_text() {
    for event in [KeyEvent::Char('q'), KeyEvent::CtrlChar('c'), KeyEvent::AltChar('@')] {
        let binding = KbdEvent { event };
        assert_eq!(KbdEvent::parse(&binding.to_text()), Ok(binding));
    }
    assert_eq!(KbdEvent { event: KeyEvent::CtrlChar('c') }.to_text(), "^c");
    assert_eq!(KbdEvent { event: KeyEvent::AltChar('x') }.to_text(), "@x");
    assert_eq!(binding('h').to_text(), "h");
}

#[test]
fn redeploy_command_is_split_like_a_shell_does() {
    assert_eq!(
        redeploy_containers("systemctl restart 'kanto auto deployer'"),
        Some(vec!["systemctl".to_string(), "restart".to_string(), "kanto auto deployer".to_string()])
    );
    assert_eq!(redeploy_containers(""), Some(vec![]));
    assert_eq!(redeploy_containers("echo \"unfinished"), None);
}

#[test]
fn log_lines_lose_their_escape_sequences() {
    let mut log = String::from("before\n");
    let line = KantoLogLine {
        stream: "stdout".to_string(),
        log: "\u{1b}[32mgreen\u{1b}[0m text\n".to_string(),
        time: "now".to_string(),
    };
    strip_and_push(&line, &mut log);
    assert_eq!(log, "before\ngreen text\n");
    assert_eq!(
        get_logs(r#"{"stream":"stderr","log":"\u001b[1mbold\u001b[0m","time":"t"}"#, &mut log),
        Ok(())
    );
    assert_eq!(log, "before\ngreen text\nbold");
    assert_eq!(get_logs("not json", &mut log), Err(LogError::InvalidJson));
    assert_eq!(get_logs(r#"{"stream":"stderr"}"#, &mut log), Err(LogError::NotALogLine));
    assert_eq!(log, "before\ngreen text\nbold");
}

#[test]
fn new_container_takes_the_defaults_of_the_template() {
    let c = create_container("databroker", "ghcr.io/x/databroker:1");
    assert_eq!(c.name, "databroker");
    assert_eq!(c.image, Some(Image { name: "ghcr.io/x/databroker:1".to_string() }));
    assert_eq!(c.id, "");
    assert_eq!(c.host_config.unwrap().network_mode, "bridge");
    assert!(c.mounts.is_empty());
}

#[test]
fn fetchers_are_offered_in_their_order() {
    assert_eq!(
        FetcherKind::get_variants_list(),
        vec![FetcherKind::HttpSingleFile, FetcherKind::Git, FetcherKind::FileSystemFolder]
    );
    assert_eq!(FetcherKind::HttpSingleFile.description(), "Single Blueprint File Over HTTP");
    assert_eq!(FetcherKind::Git.description(), "Clone a Git repository over HTTP(S)");
    assert_eq!(
        FetcherKind::FileSystemFolder.description(),
        "Directory on the filesystem (absolute path prefixed with file://)"
    );
}

#[test]
fn daemon_waits_for_the_control_plane() {
    let mut args = CliArgs {
        manifests_path: ".".to_string(),
        socket_cm: "/run/container-management/container-management.sock".to_string(),
        daemon: false,
        mqtt: MQTTconfig {
            enabled: true,
            ip: "localhost".to_string(),
            port: 1883,
            topic: "containersupdate/desiredstatefeedback".to_string(),
        },
    };
    assert_eq!(args.retry_times(), RetryTimes::Never);
    assert!(!args.wants_listener());
    args.daemon = true;
    assert_eq!(args.retry_times(), RetryTimes::Forever);
    assert!(args.wants_listener());
    args.mqtt.enabled = false;
    assert!(!args.wants_listener());
}

#[test]
fn fetched_file_is_named_after_the_end_of_the_path() {
    assert_eq!(http_single_file("/blueprints/seat.blueprint.json"), "seat.blueprint.json");
    assert_eq!(http_single_file("seat.json"), "seat.json");
    assert_eq!(http_single_file("/a/b/"), "");
    assert_eq!(http_single_file(""), "");
    assert_eq!(http_single_file("/ä/ö.json"), "ö.json");
}
