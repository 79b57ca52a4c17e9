use stelliberty::ipc::client::ClientStep;
use stelliberty::ipc::client::IpcClient;
use stelliberty::ipc::codec::encode_command;
use stelliberty::ipc::codec::DecodeError;
use stelliberty::ipc::error::IpcError;
use stelliberty::ipc::error::TransportFault;
use stelliberty::ipc::frame::FrameError;
use stelliberty::ipc::protocol::ErrorKind;
use stelliberty::ipc::protocol::IpcCommand;
use stelliberty::ipc::protocol::IpcResponse;
use stelliberty::ipc::protocol::ManagedProcess;
use stelliberty::ipc::protocol::ProcessStatus;
use stelliberty::ipc::protocol::ResponsePayload;
use stelliberty::ipc::server::describe_decode_error;
use stelliberty::ipc::server::error_kind_of;
use stelliberty::ipc::server::Intake;
use stelliberty::ipc::server::IpcServer;
use stelliberty::ipc::server::ServerStep;
use stelliberty::process::supervisor::ExitReport;
use stelliberty::process::supervisor::ProcessError;
use stelliberty::process::supervisor::ProcessSupervisor;
use stelliberty::process::supervisor::SpawnOutcome;
use stelliberty::process::supervisor::SpawnRequest;

fn server() -> IpcServer {
    IpcServer::new(ProcessSupervisor::new("/opt/core".to_string(), 4), 3_000)
}

fn start(config: &str) -> IpcCommand {
    IpcCommand::Start { config_path: config.to_string(), extra_args: Vec::new() }
}

fn ack() -> ServerStep {
    ServerStep::Reply(IpcResponse::Success { payload: ResponsePayload::Ack })
}

fn started(pid: u32) -> IpcServer {
    let mut server = server();
    assert!(matches!(server.on_command(start("a.yaml")), ServerStep::Launch(_)));
    assert_eq!(
        server.on_spawned(SpawnOutcome::Spawned { pid, start_time: 5 }, String::new()),
        ack()
    );
    server
}

fn status_of(server: &mut IpcServer) -> ManagedProcess {
    match server.on_command(IpcCommand::Status) {
        ServerStep::Reply(IpcResponse::Success { payload: ResponsePayload::Status(process) }) => {
            process
        }
        other => panic!("no status: {:?}", other),
    }
}

#[test]
fn status_without_child_is_not_running() {
    let mut server = server();
    let process = status_of(&mut server);
    assert_eq!(process.status, ProcessStatus::NotRunning);
    assert_eq!(process.executable_path, "/opt/core");
    assert!(server.is_idle());
}

#[test]
fn start_then_second_start_is_already_running() {
    let mut server = server();
    let step = server.on_command(start("a.yaml"));
    assert_eq!(
        step,
        ServerStep::Launch(SpawnRequest {
            executable_path: "/opt/core".to_string(),
            arguments: vec!["-f".to_string(), "a.yaml".to_string()],
        })
    );
    assert!(!server.is_idle());
    assert_eq!(
        server.on_spawned(SpawnOutcome::Spawned { pid: 12, start_time: 5 }, String::new()),
        ack()
    );
    assert!(server.is_idle());
    assert_eq!(
        server.on_command(start("a.yaml")),
        ServerStep::Reply(IpcResponse::Failure {
            kind: ErrorKind::AlreadyRunning,
            message: "the proxy core is already running".to_string(),
        })
    );
    assert!(server.is_idle());
    assert_eq!(status_of(&mut server).pid, 12);
}

#[test]
fn killed_child_shows_as_crashed_in_status() {
    let mut server = started(12);
    assert_eq!(status_of(&mut server).status, ProcessStatus::Running);
    assert!(server.on_child_exit(12, ExitReport::Signal(9)));
    assert_eq!(status_of(&mut server).status, ProcessStatus::Crashed(9));
    assert!(matches!(server.on_command(start("a.yaml")), ServerStep::Launch(_)));
}

#[test]
fn failed_launch_is_answered_with_the_reason() {
    let mut server = server();
    assert!(matches!(server.on_command(start("a.yaml")), ServerStep::Launch(_)));
    assert_eq!(
        server.on_spawned(SpawnOutcome::Failed, "no such file".to_string()),
        ServerStep::Reply(IpcResponse::Failure {
            kind: ErrorKind::SpawnFailed,
            message: "no such file".to_string(),
        })
    );
    assert!(server.is_idle());
    assert_eq!(status_of(&mut server).status, ProcessStatus::NotRunning);
}

#[test]
fn stop_without_child_is_acknowledged() {
    let mut server = server();
    assert_eq!(server.on_command(IpcCommand::Stop), ack());
    assert!(server.is_idle());
}

#[test]
fn stop_of_a_child_that_ends_in_time() {
    let mut server = started(12);
    assert_eq!(
        server.on_command(IpcCommand::Stop),
        ServerStep::Terminate { pid: 12, grace_ms: 3_000 }
    );
    assert!(!server.is_idle());
    assert_eq!(server.on_grace_over(true), ack());
    assert!(server.is_idle());
    assert_eq!(status_of(&mut server).status, ProcessStatus::NotRunning);
    assert_eq!(server.on_command(IpcCommand::Stop), ack());
}

#[test]
fn stop_of_a_child_that_has_to_be_killed() {
    let mut server = started(12);
    assert_eq!(
        server.on_command(IpcCommand::Stop),
        ServerStep::Terminate { pid: 12, grace_ms: 3_000 }
    );
    assert_eq!(server.on_grace_over(false), ServerStep::Kill { pid: 12 });
    assert!(!server.is_idle());
    assert_eq!(
        server.on_killed(),
        ServerStep::Reply(IpcResponse::Failure {
            kind: ErrorKind::StopTimedOut,
            message: "the proxy core did not end in time and was killed".to_string(),
        })
    );
    assert!(server.is_idle());
    assert_eq!(status_of(&mut server).status, ProcessStatus::NotRunning);
}

#[test]
fn lane_takes_one_request_at_a_time() {
    let mut server = server();
    assert!(matches!(server.on_command(start("a.yaml")), ServerStep::Launch(_)));
    assert_eq!(server.on_command(IpcCommand::Stop), ServerStep::Busy);
    assert_eq!(server.on_command(IpcCommand::Status), ServerStep::Busy);
    assert_eq!(server.on_command(start("b.yaml")), ServerStep::Busy);
    assert!(!server.on_child_exit(12, ExitReport::Code(0)));
    assert_eq!(server.on_grace_over(true), ServerStep::Ignored);
    assert_eq!(server.on_killed(), ServerStep::Ignored);
    assert_eq!(
        server.on_spawned(SpawnOutcome::Spawned { pid: 12, start_time: 5 }, String::new()),
        ack()
    );
    assert_eq!(
        server.on_command(IpcCommand::Stop),
        ServerStep::Terminate { pid: 12, grace_ms: 3_000 }
    );
    assert_eq!(server.on_command(start("b.yaml")), ServerStep::Busy);
    assert_eq!(
        server.on_spawned(SpawnOutcome::Spawned { pid: 13, start_time: 6 }, String::new()),
        ServerStep::Ignored
    );
    assert_eq!(server.on_killed(), ServerStep::Ignored);
    assert_eq!(server.on_grace_over(true), ack());
    assert_eq!(status_of(&mut server).status, ProcessStatus::NotRunning);
}

#[test]
fn stray_reports_are_ignored() {
    let mut server = started(12);
    assert_eq!(server.on_spawned(SpawnOutcome::Failed, String::new()), ServerStep::Ignored);
    assert_eq!(server.on_grace_over(false), ServerStep::Ignored);
    assert_eq!(server.on_killed(), ServerStep::Ignored);
    assert!(server.is_idle());
    assert_eq!(status_of(&mut server).status, ProcessStatus::Running);
}

#[test]
fn logs_are_handed_out_newest_last() {
    let mut server = server();
    for word in ["a", "b", "c", "d", "e"] {
        server.on_log_line(word.to_string());
    }
    assert_eq!(
        server.on_command(IpcCommand::GetLogs { max_lines: 2 }),
        ServerStep::Reply(IpcResponse::Success {
            payload: ResponsePayload::Logs(vec!["d".to_string(), "e".to_string()]),
        })
    );
    assert_eq!(
        server.on_command(IpcCommand::GetLogs { max_lines: 100 }),
        ServerStep::Reply(IpcResponse::Success {
            payload: ResponsePayload::Logs(vec![
                "b".to_string(),
                "c".to_string(),
                "d".to_string(),
                "e".to_string()
            ]),
        })
    );
}

#[test]
fn bytes_that_are_no_request_get_a_protocol_error() {
    let mut server = server();
    assert_eq!(
        server.on_frame(&[]),
        ServerStep::Reply(IpcResponse::Failure {
            kind: ErrorKind::ProtocolError,
            message: "empty message".to_string(),
        })
    );
    assert_eq!(
        server.on_frame(&[77]),
        ServerStep::Reply(IpcResponse::Failure {
            kind: ErrorKind::ProtocolError,
            message: "unknown command".to_string(),
        })
    );
    assert_eq!(
        server.on_frame(&[2, 2]),
        ServerStep::Reply(IpcResponse::Failure {
            kind: ErrorKind::ProtocolError,
            message: "malformed message".to_string(),
        })
    );
    assert!(server.is_idle());
    assert_eq!(server.on_frame(&encode_command(&IpcCommand::Stop)), ack());
}

#[test]
fn describe_decode_error_has_a_text_for_each() {
    assert_eq!(describe_decode_error(DecodeError::Empty), "empty message");
    assert_eq!(describe_decode_error(DecodeError::UnknownTag(3)), "unknown command");
    assert_eq!(describe_decode_error(DecodeError::Malformed), "malformed message");
}

#[test]
fn process_errors_travel_under_their_kind() {
    assert_eq!(error_kind_of(ProcessError::AlreadyRunning), ErrorKind::AlreadyRunning);
    assert_eq!(error_kind_of(ProcessError::SpawnFailed), ErrorKind::SpawnFailed);
    assert_eq!(error_kind_of(ProcessError::StopTimedOut), ErrorKind::StopTimedOut);
}

#[test]
fn server_waits_for_a_whole_frame() {
    let mut server = server();
    assert_eq!(server.on_bytes(&[]), Intake::NeedMore(4));
    assert_eq!(server.on_bytes(&[1, 0, 0]), Intake::NeedMore(1));
    assert_eq!(server.on_bytes(&[1, 0, 0, 0]), Intake::NeedMore(1));
    assert_eq!(server.on_bytes(&[1, 0, 0, 0, 2]), Intake::Step(ack()));
    assert_eq!(
        server.on_bytes(&[255, 255, 255, 255]),
        Intake::Step(ServerStep::Reply(IpcResponse::Failure {
            kind: ErrorKind::ProtocolError,
            message: "message too large".to_string(),
        }))
    );
    assert_eq!(
        server.on_bytes(&[1, 0, 0, 0, 9]),
        Intake::Step(ServerStep::Reply(IpcResponse::Failure {
            kind: ErrorKind::ProtocolError,
            message: "unknown command".to_string(),
        }))
    );
}

#[test]
fn request_and_answer_cross_the_channel() {
    let client = IpcClient::new(2_000);
    assert_eq!(client.timeout_ms(), 2_000);
    let mut server = server();
    let command = IpcCommand::Start {
        config_path: "a.yaml".to_string(),
        extra_args: vec!["-d".to_string(), "dir".to_string()],
    };
    let request = client.request(&command).unwrap();
    let step = match server.on_bytes(&request) {
        Intake::Step(step) => step,
        other => panic!("no step: {:?}", other),
    };
    assert_eq!(
        step,
        ServerStep::Launch(SpawnRequest {
            executable_path: "/opt/core".to_string(),
            arguments: vec![
                "-f".to_string(),
                "a.yaml".to_string(),
                "-d".to_string(),
                "dir".to_string()
            ],
        })
    );
    let answer = match server.on_spawned(SpawnOutcome::Spawned { pid: 3, start_time: 4 }, String::new()) {
        ServerStep::Reply(answer) => answer,
        other => panic!("no answer: {:?}", other),
    };
    let bytes = IpcServer::reply(&answer).unwrap();
    assert_eq!(bytes, vec![2, 0, 0, 0, 128, 0]);
    assert_eq!(client.on_bytes(&bytes[..3]), ClientStep::NeedMore(1));
    assert_eq!(client.on_bytes(&bytes[..5]), ClientStep::NeedMore(1));
    assert_eq!(client.on_bytes(&bytes), ClientStep::Done(Ok(answer)));

    let status_request = client.request(&IpcCommand::Status).unwrap();
    assert_eq!(status_request, vec![1, 0, 0, 0, 3]);
    let status_answer = match server.on_bytes(&status_request) {
        Intake::Step(ServerStep::Reply(answer)) => answer,
        other => panic!("no answer: {:?}", other),
    };
    let status_bytes = IpcServer::reply(&status_answer).unwrap();
    match client.on_bytes(&status_bytes) {
        ClientStep::Done(Ok(IpcResponse::Success { payload: ResponsePayload::Status(process) })) => {
            assert_eq!(process.pid, 3);
            assert_eq!(process.status, ProcessStatus::Running);
        }
        other => panic!("no status: {:?}", other),
    }
}

#[test]
fn client_tells_a_missing_service_from_other_failures() {
    let client = IpcClient::new(100);
    assert_eq!(client.on_fault(TransportFault::NoListener), Err(IpcError::ServiceUnavailable));
    assert_eq!(client.on_fault(TransportFault::TimedOut), Err(IpcError::Timeout));
    assert_eq!(client.on_fault(TransportFault::Disconnected), Err(IpcError::Transport));
    assert_eq!(IpcError::from_fault(TransportFault::NoListener), IpcError::ServiceUnavailable);
    let refusal = IpcResponse::Failure {
        kind: ErrorKind::AlreadyRunning,
        message: "the proxy core is already running".to_string(),
    };
    let bytes = IpcServer::reply(&refusal).unwrap();
    assert_eq!(client.on_bytes(&bytes), ClientStep::Done(Ok(refusal)));
}

#[test]
fn client_refuses_bytes_that_are_no_answer() {
    let client = IpcClient::new(100);
    assert_eq!(
        client.on_bytes(&[1, 0, 0, 0, 7]),
        ClientStep::Done(Err(IpcError::Protocol(DecodeError::UnknownTag(7))))
    );
    assert_eq!(
        client.on_bytes(&[0, 0, 0, 0]),
        ClientStep::Done(Err(IpcError::Protocol(DecodeError::Empty)))
    );
    assert_eq!(
        client.on_bytes(&[2, 0, 0, 0, 128, 9]),
        ClientStep::Done(Err(IpcError::Protocol(DecodeError::Malformed)))
    );
    assert_eq!(
        client.on_bytes(&[0, 0, 0, 2]),
        ClientStep::Done(Err(IpcError::Protocol(DecodeError::Malformed)))
    );
}

#[test]
fn messages_above_the_frame_limit_are_not_sent() {
    let client = IpcClient::new(100);
    let huge = "x".repeat(16 * 1024 * 1024);
    let command = IpcCommand::Start { config_path: huge.clone(), extra_args: Vec::new() };
    assert_eq!(client.request(&command), Err(IpcError::TooLarge));
    let answer = IpcResponse::Success { payload: ResponsePayload::Logs(vec![huge]) };
    assert_eq!(IpcServer::reply(&answer), Err(FrameError::TooLarge));
}

#[test]
fn errors_have_a_one_line_text() {
    assert_eq!(IpcError::ServiceUnavailable.describe(), "the service is not running");
    assert_eq!(IpcError::Timeout.describe(), "the service did not answer in time");
    assert_eq!(IpcError::Transport.describe(), "the connection to the service failed");
    assert_eq!(
        IpcError::Protocol(DecodeError::Malformed).describe(),
        "the service sent bytes that are no answer"
    );
    assert_eq!(IpcError::TooLarge.describe(), "the message is too large");
}

#[test]
fn start_and_stop_near_each_other_follow_a_serial_order() {
    // Start takes the lane first: Stop waits, then stops the child.
    let mut first = server();
    assert!(matches!(first.on_command(start("a.yaml")), ServerStep::Launch(_)));
    assert_eq!(first.on_command(IpcCommand::Stop), ServerStep::Busy);
    assert_eq!(
        first.on_spawned(SpawnOutcome::Spawned { pid: 21, start_time: 1 }, String::new()),
        ack()
    );
    assert_eq!(
        first.on_command(IpcCommand::Stop),
        ServerStep::Terminate { pid: 21, grace_ms: 3_000 }
    );
    assert_eq!(first.on_grace_over(true), ack());
    let after_first = status_of(&mut first);
    assert_eq!(after_first.status, ProcessStatus::NotRunning);

    // Stop takes the lane first: it finds nothing to do, then Start runs.
    let mut second = server();
    assert_eq!(second.on_command(IpcCommand::Stop), ack());
    assert!(matches!(second.on_command(start("a.yaml")), ServerStep::Launch(_)));
    assert_eq!(second.on_command(IpcCommand::Stop), ServerStep::Busy);
    assert_eq!(
        second.on_spawned(SpawnOutcome::Spawned { pid: 21, start_time: 1 }, String::new()),
        ack()
    );
    let after_second = status_of(&mut second);
    assert_eq!(after_second.status, ProcessStatus::Running);
    assert_eq!(after_second.pid, 21);
}
