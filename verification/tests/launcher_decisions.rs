use ghostify_dpi::launch_stages::LaunchStages;
use ghostify_dpi::launcher::{
    detect_goodbyedpi_folder, exit_follow_up, finish_start, finish_stop, goodbyedpi_command,
    goodbyedpi_folder, start, status, stop, stop_id, ExitFollowUp, OsBitness, OutputAction,
    OutputEvent, OutputWatch, ProcessIds, StopAction,
};
use ghostify_dpi::process_status::ProcessStatus;

fn running() -> ProcessStatus {
    let mut status = ProcessStatus::new();
    status.set_status(LaunchStages::Started);
    status.take_events();
    status
}

#[test]
fn status_names_current_stage() {
    let mut register = ProcessStatus::new();
    assert_eq!(status(&register), "Stopped");
    register.set_status(LaunchStages::Starting);
    assert_eq!(status(&register), "Starting");
}

#[test]
fn start_then_ready_code_zero_runs() {
    let mut register = ProcessStatus::new();
    assert!(start(&mut register));
    assert!(!start(&mut register));
    finish_start(&mut register, 0);
    assert_eq!(register.stage(), LaunchStages::Started);
    assert_eq!(register.take_events(), vec![LaunchStages::Starting, LaunchStages::Started]);
}

#[test]
fn start_then_exit_code_stops() {
    let mut register = ProcessStatus::new();
    assert!(start(&mut register));
    finish_start(&mut register, 3);
    assert_eq!(register.stage(), LaunchStages::Stopped);
    assert_eq!(register.take_events(), vec![LaunchStages::Starting, LaunchStages::Stopped]);
}

#[test]
fn start_refused_while_running() {
    let mut register = running();
    assert!(!start(&mut register));
    assert_eq!(register.stage(), LaunchStages::Started);
    assert!(register.take_events().is_empty());
}

#[test]
fn stop_id_of_current_process_terminates() {
    let mut register = running();
    assert_eq!(stop_id(&mut register, Some(4), 4), StopAction::Terminate { kill_process: true });
    assert_eq!(register.stage(), LaunchStages::Stopping);
    finish_stop(&mut register);
    assert_eq!(register.stage(), LaunchStages::Stopped);
    assert_eq!(register.take_events(), vec![LaunchStages::Stopping, LaunchStages::Stopped]);
}

#[test]
fn stop_id_without_stored_process_terminates_without_kill() {
    let mut register = running();
    assert_eq!(stop_id(&mut register, None, 9), StopAction::Terminate { kill_process: false });
    assert_eq!(register.stage(), LaunchStages::Stopping);
}

#[test]
fn stop_id_of_older_process_keeps_running() {
    let mut register = running();
    assert_eq!(stop_id(&mut register, Some(5), 4), StopAction::KeepRunning);
    assert_eq!(register.stage(), LaunchStages::Started);
    assert_eq!(register.take_events(), vec![LaunchStages::Stopping, LaunchStages::Started]);
}

#[test]
fn stop_id_ignored_unless_running() {
    for stage in [LaunchStages::Stopped, LaunchStages::Stopping, LaunchStages::Starting] {
        let mut register = ProcessStatus::new();
        register.set_status(stage);
        register.take_events();
        assert_eq!(stop_id(&mut register, Some(1), 1), StopAction::Ignored);
        assert_eq!(register.stage(), stage);
        assert!(register.take_events().is_empty());
    }
}

#[test]
fn stop_without_process_does_nothing() {
    let mut register = running();
    assert_eq!(stop(&mut register, None), StopAction::Ignored);
    assert_eq!(register.stage(), LaunchStages::Started);
    assert_eq!(stop(&mut register, Some(2)), StopAction::Terminate { kill_process: true });
}

#[test]
fn process_ids_count_and_wrap() {
    let mut ids = ProcessIds::new();
    assert_eq!(ids.allocate(), 0);
    assert_eq!(ids.allocate(), 1);
    for _ in 2..255 {
        ids.allocate();
    }
    assert_eq!(ids.allocate(), 255);
    assert_eq!(ids.allocate(), 0);
}

#[test]
fn folder_follows_bitness() {
    assert_eq!(goodbyedpi_folder(OsBitness::X86_64), "x86_64");
    assert_eq!(goodbyedpi_folder(OsBitness::X86_32), "x86");
    assert_eq!(goodbyedpi_folder(OsBitness::Unknown), "x86");
}

#[test]
fn detected_folder_is_a_known_build() {
    let folder = detect_goodbyedpi_folder().expect("the machine reports its bitness");
    assert!(folder == "x86_64" || folder == "x86");
}

#[test]
fn command_runs_executable_with_blacklist() {
    let command = goodbyedpi_command("C:\\app\\x86_64\\goodbyedpi.exe", "C:\\app\\blacklist.txt", 7);
    assert_eq!(command.program(), "C:\\app\\x86_64\\goodbyedpi.exe");
    assert_eq!(command.args(), &vec!["-9".to_string(), "--blacklist".to_string(), "C:\\app\\blacklist.txt".to_string()]);
    assert_eq!(command.process_id(), 7);
}

#[test]
fn exit_follow_up_by_stage() {
    assert_eq!(exit_follow_up(2), ExitFollowUp { report_killed: true, notify_ready: false });
    assert_eq!(exit_follow_up(3), ExitFollowUp { report_killed: false, notify_ready: true });
    assert_eq!(exit_follow_up(0), ExitFollowUp { report_killed: false, notify_ready: false });
    assert_eq!(exit_follow_up(1), ExitFollowUp { report_killed: false, notify_ready: false });
}

#[test]
fn output_watch_marks_start_on_ready_line() {
    let mut watch = OutputWatch::new();
    assert!(watch.awaits_start());
    match watch.on_event(OutputEvent::Line("Filter activated".to_string())) {
        OutputAction::Continue { log, notify_ready } => {
            assert_eq!(log, "Filter activated");
            assert!(!notify_ready);
        }
        OutputAction::Finish { .. } => panic!("a line does not end the watch"),
    }
    assert!(watch.awaits_start());
    match watch.on_event(OutputEvent::Line("GoodbyeDPI is now running!".to_string())) {
        OutputAction::Continue { log, notify_ready } => {
            assert_eq!(log, "GoodbyeDPI is now running!");
            assert!(notify_ready);
        }
        OutputAction::Finish { .. } => panic!("a line does not end the watch"),
    }
    assert!(!watch.awaits_start());
    match watch.on_event(OutputEvent::Line("later".to_string())) {
        OutputAction::Continue { notify_ready, .. } => assert!(!notify_ready),
        OutputAction::Finish { .. } => panic!("a line does not end the watch"),
    }
    assert!(!watch.awaits_start());
}

fn finish_report(event: OutputEvent) -> Option<String> {
    match OutputWatch::new().on_event(event) {
        OutputAction::Finish { report } => report,
        OutputAction::Continue { .. } => panic!("expected the watch to end"),
    }
}

#[test]
fn output_watch_failures_end_with_message() {
    assert_eq!(
        finish_report(OutputEvent::TimedOut).as_deref(),
        Some("Output error: Timed out waiting for process to start")
    );
    assert_eq!(finish_report(OutputEvent::Killed).as_deref(), Some("Output error: Process killed"));
    assert_eq!(
        finish_report(OutputEvent::Failed("broken pipe".to_string())).as_deref(),
        Some("Output error: broken pipe")
    );
    assert_eq!(finish_report(OutputEvent::Closed), None);
}
