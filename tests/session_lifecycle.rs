use mavis_term::error::SessionError;
use mavis_term::launch::{Launch, LaunchAction, LaunchEvent};
use mavis_term::session::{ChildProcess, Cleanup, ConPtySession, PipeEnds, STILL_ACTIVE};

const STDIN: PipeEnds = PipeEnds { read: 10, write: 11 };
const STDOUT: PipeEnds = PipeEnds { read: 20, write: 21 };
const CONSOLE: u64 = 30;
const CHILD: ChildProcess = ChildProcess { process: 40, thread: 41, pid: 4242 };

fn expect_release(action: LaunchAction) -> Vec<Cleanup> {
    match action {
        LaunchAction::Release(steps) => steps,
        _ => panic!("expected a release action"),
    }
}

fn step(launch: &mut Launch, event: LaunchEvent) -> LaunchAction {
    assert!(launch.accepts(&event));
    launch.advance(event)
}

fn launch_session(command: &str, cols: i16, rows: i16) -> ConPtySession {
    let (mut launch, first) = ConPtySession::new(command, cols, rows);
    assert!(matches!(first, LaunchAction::CreatePipe));
    assert!(matches!(step(&mut launch, LaunchEvent::PipeCreated(STDIN)), LaunchAction::CreatePipe));
    match step(&mut launch, LaunchEvent::PipeCreated(STDOUT)) {
        LaunchAction::CreateConsole { cols: c, rows: r, input, output } => {
            assert_eq!((c, r, input, output), (cols, rows, 10, 21));
        }
        _ => panic!("expected console creation"),
    }
    let child_ends = expect_release(step(&mut launch, LaunchEvent::ConsoleCreated(CONSOLE)));
    assert_eq!(child_ends, vec![Cleanup::CloseHandle(10), Cleanup::CloseHandle(21)]);
    assert!(matches!(step(&mut launch, LaunchEvent::Released), LaunchAction::InitAttributeList));
    match step(&mut launch, LaunchEvent::AttributeListReady) {
        LaunchAction::AttachConsole { console } => assert_eq!(console, CONSOLE),
        _ => panic!("expected console attachment"),
    }
    match step(&mut launch, LaunchEvent::ConsoleAttached) {
        LaunchAction::CreateProcess { command: c } => assert_eq!(c, command),
        _ => panic!("expected process creation"),
    }
    let list = expect_release(step(&mut launch, LaunchEvent::ProcessCreated(CHILD)));
    assert_eq!(list, vec![Cleanup::DeleteAttributeList]);
    match step(&mut launch, LaunchEvent::Released) {
        LaunchAction::Finished(Ok(session)) => session,
        _ => panic!("expected a session"),
    }
}

#[test]
fn launch_runs_the_steps_in_order() {
    let session = launch_session("cmd.exe /c echo Hello", 80, 25);
    assert!(session.is_live());
    assert_eq!((session.cols(), session.rows(), session.pid()), (80, 25, 4242));
    assert_eq!(session.input_handle(), Ok(11));
    assert_eq!(session.output_handle(), Ok(20));
    assert_eq!(session.console_handle(), Ok(CONSOLE));
    assert_eq!(session.process_handle(), Ok(40));
}

#[test]
fn input_pipe_failure_holds_nothing() {
    let (mut launch, _) = ConPtySession::new("cmd.exe", 80, 25);
    match step(&mut launch, LaunchEvent::Failed(8)) {
        LaunchAction::Finished(Err(e)) => assert_eq!(e, SessionError::PipeCreationFailed(8)),
        _ => panic!("expected a finished launch"),
    }
    assert!(!launch.accepts(&LaunchEvent::Released));
}

#[test]
fn output_pipe_failure_closes_input_pipe() {
    let (mut launch, _) = ConPtySession::new("cmd.exe", 80, 25);
    step(&mut launch, LaunchEvent::PipeCreated(STDIN));
    let steps = expect_release(step(&mut launch, LaunchEvent::Failed(8)));
    assert_eq!(steps, vec![Cleanup::CloseHandle(10), Cleanup::CloseHandle(11)]);
    match step(&mut launch, LaunchEvent::Released) {
        LaunchAction::Finished(Err(e)) => assert_eq!(e, SessionError::PipeCreationFailed(8)),
        _ => panic!("expected a finished launch"),
    }
}

#[test]
fn console_failure_closes_both_pipes() {
    let (mut launch, _) = ConPtySession::new("cmd.exe", 80, 25);
    step(&mut launch, LaunchEvent::PipeCreated(STDIN));
    step(&mut launch, LaunchEvent::PipeCreated(STDOUT));
    let steps = expect_release(step(&mut launch, LaunchEvent::Failed(-2147024809)));
    assert_eq!(
        steps,
        vec![
            Cleanup::CloseHandle(10),
            Cleanup::CloseHandle(11),
            Cleanup::CloseHandle(20),
            Cleanup::CloseHandle(21),
        ]
    );
    match step(&mut launch, LaunchEvent::Released) {
        LaunchAction::Finished(Err(e)) => {
            assert_eq!(e, SessionError::ConsoleCreationFailed(-2147024809))
        }
        _ => panic!("expected a finished launch"),
    }
}

#[test]
fn process_failure_rolls_back_console_pipes_and_list() {
    let (mut launch, _) = ConPtySession::new("missing.exe", 80, 25);
    step(&mut launch, LaunchEvent::PipeCreated(STDIN));
    step(&mut launch, LaunchEvent::PipeCreated(STDOUT));
    step(&mut launch, LaunchEvent::ConsoleCreated(CONSOLE));
    step(&mut launch, LaunchEvent::Released);
    step(&mut launch, LaunchEvent::AttributeListReady);
    step(&mut launch, LaunchEvent::ConsoleAttached);
    let steps = expect_release(step(&mut launch, LaunchEvent::Failed(2)));
    assert_eq!(
        steps,
        vec![
            Cleanup::DeleteAttributeList,
            Cleanup::CloseHandle(11),
            Cleanup::CloseHandle(20),
            Cleanup::ClosePseudoConsole(CONSOLE),
        ]
    );
    match step(&mut launch, LaunchEvent::Released) {
        LaunchAction::Finished(Err(e)) => assert_eq!(e, SessionError::LaunchFailed(2)),
        _ => panic!("expected a finished launch"),
    }
}

#[test]
fn attribute_list_failure_is_a_launch_failure() {
    let (mut launch, _) = ConPtySession::new("cmd.exe", 80, 25);
    step(&mut launch, LaunchEvent::PipeCreated(STDIN));
    step(&mut launch, LaunchEvent::PipeCreated(STDOUT));
    step(&mut launch, LaunchEvent::ConsoleCreated(CONSOLE));
    step(&mut launch, LaunchEvent::Released);
    let steps = expect_release(step(&mut launch, LaunchEvent::Failed(87)));
    assert_eq!(
        steps,
        vec![Cleanup::CloseHandle(11), Cleanup::CloseHandle(20), Cleanup::ClosePseudoConsole(CONSOLE)]
    );
    match step(&mut launch, LaunchEvent::Released) {
        LaunchAction::Finished(Err(e)) => assert_eq!(e, SessionError::LaunchFailed(87)),
        _ => panic!("expected a finished launch"),
    }
}

#[test]
fn launch_refuses_out_of_order_reports() {
    let (launch, _) = ConPtySession::new("cmd.exe", 80, 25);
    assert!(!launch.accepts(&LaunchEvent::ConsoleCreated(CONSOLE)));
    assert!(!launch.accepts(&LaunchEvent::Released));
    assert!(launch.accepts(&LaunchEvent::Failed(1)));
}

#[test]
fn test_conpty_resize() {
    let mut session = launch_session("cmd.exe /c exit", 80, 25);
    assert!(session.resize(120, 40, Ok(())).is_ok());
    assert_eq!((session.cols(), session.rows()), (120, 40));
}

#[test]
fn failed_resize_keeps_geometry() {
    let mut session = launch_session("cmd.exe", 80, 25);
    assert_eq!(session.resize(-1, 0, Err(87)), Err(SessionError::Io(87)));
    assert_eq!((session.cols(), session.rows()), (80, 25));
}

#[test]
fn terminate_twice_is_harmless() {
    let mut session = launch_session("cmd.exe /k echo Running...", 80, 25);
    let first = session.terminate();
    assert_eq!(
        first,
        vec![
            Cleanup::TerminateProcess(40),
            Cleanup::CloseHandle(40),
            Cleanup::CloseHandle(41),
            Cleanup::ClosePseudoConsole(CONSOLE),
        ]
    );
    assert!(session.terminate().is_empty());
    assert!(!session.is_live());
    assert_eq!(session.close(), vec![Cleanup::CloseHandle(11), Cleanup::CloseHandle(20)]);
}

#[test]
fn close_without_terminate_releases_everything() {
    let session = launch_session("cmd.exe", 80, 25);
    assert_eq!(
        session.close(),
        vec![
            Cleanup::TerminateProcess(40),
            Cleanup::CloseHandle(40),
            Cleanup::CloseHandle(41),
            Cleanup::ClosePseudoConsole(CONSOLE),
            Cleanup::CloseHandle(11),
            Cleanup::CloseHandle(20),
        ]
    );
}

#[test]
fn write_after_terminate_is_an_error() {
    let mut session = launch_session("cmd.exe", 80, 25);
    session.terminate();
    assert_eq!(session.input_handle(), Err(SessionError::Terminated));
    assert_eq!(session.write(Ok(6)), Err(SessionError::Terminated));
    assert_eq!(session.read(Ok(6)), Err(SessionError::Terminated));
    assert_eq!(session.get_exit_code(Ok(0)), Err(SessionError::Terminated));
    assert_eq!(session.has_data_available(Ok(1)), Err(SessionError::Terminated));
    assert_eq!(session.resize(100, 30, Ok(())), Err(SessionError::Terminated));
    assert_eq!((session.cols(), session.rows()), (80, 25));
}

#[test]
fn write_reports_bytes_written_or_the_error() {
    let session = launch_session("cmd.exe", 80, 25);
    assert_eq!(session.write(Ok(6)), Ok(6));
    assert_eq!(session.write(Err(232)), Err(SessionError::Io(232)));
}

#[test]
fn read_reports_count_and_end() {
    let session = launch_session("cmd.exe", 80, 25);
    assert_eq!(session.read(Ok(17)), Ok(17));
    assert_eq!(session.read(Ok(0)), Ok(0));
    assert_eq!(session.read(Err(109)), Err(SessionError::Io(109)));
}

#[test]
fn peek_reports_waiting_bytes() {
    let session = launch_session("cmd.exe", 80, 25);
    assert_eq!(session.has_data_available(Ok(0)), Ok(false));
    assert_eq!(session.has_data_available(Ok(12)), Ok(true));
    assert_eq!(session.has_data_available(Err(6)), Err(SessionError::Io(6)));
}

#[test]
fn exit_code_sentinel_means_running() {
    let session = launch_session("cmd.exe /c echo Hello", 80, 25);
    assert_eq!(session.get_exit_code(Ok(STILL_ACTIVE)), Ok(None));
    assert_eq!(session.get_exit_code(Ok(0)), Ok(Some(0)));
    assert_eq!(session.get_exit_code(Ok(1)), Ok(Some(1)));
    assert_eq!(session.get_exit_code(Err(6)), Err(SessionError::Io(6)));
}
