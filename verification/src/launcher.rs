//! The decisions that start and stop the protection process, pick the build
//! of it that fits the machine, number its runs and watch its output.
use vstd::prelude::*;

use crate::console_command::{CommandView, ConsoleCommand};
use crate::launch_stages::{stage_code, stage_name, LaunchStages};
use crate::process_status::{after_set, after_switch, ProcessStatus, StatusView};
use crate::text::{concat_text, contains, has_substring, occurs_at};

verus! {

/// The name of the status that the process is in, as the user interface shows it.
pub fn status(register: &ProcessStatus) -> (r: String)
    ensures
        r@ == stage_name(register@.stage),
{
    let code = register.get_status();
    match LaunchStages::from_repr(code) {
        Some(stage) => stage.to_string(),
        None => {
            assert(false);
            String::new()
        },
    }
}

/// Claims the right to start: moves from `Stopped` to `Starting`, and tells
/// whether it did. Where it did not, another start or stop is under way, or
/// the process runs, and nothing changes.
pub fn start(register: &mut ProcessStatus) -> (granted: bool)
    ensures
        granted == (old(register)@.stage == LaunchStages::Stopped),
        final(register)@ == after_switch(
            old(register)@,
            LaunchStages::Stopped,
            LaunchStages::Starting,
        ),
{
    register.switch_status(LaunchStages::Stopped, LaunchStages::Starting)
}

/// The stage that a start ends in, from the first code that the process
/// reports: 0 when it is running, or its exit code when it ended first.
pub open spec fn ready_stage(exit_code: u32) -> LaunchStages {
    if exit_code == 0 {
        LaunchStages::Started
    } else {
        LaunchStages::Stopped
    }
}

/// Ends a start with the first code that the process reported.
pub fn finish_start(register: &mut ProcessStatus, exit_code: u32)
    ensures
        final(register)@ == after_set(old(register)@, ready_stage(exit_code)),
{
    let stage = if exit_code == 0 {
        LaunchStages::Started
    } else {
        LaunchStages::Stopped
    };
    register.set_status(stage);
}

/// What a request to stop a process leads to.
#[derive(Clone, Copy, Debug, PartialEq, Eq, Structural)]
pub enum StopAction {
    /// The process was not running, or another stop is under way: nothing to do.
    Ignored,
    /// The request was for an older process than the one that runs: it keeps running.
    KeepRunning,
    /// Kill the stored process if `kill_process`, clean up, then `finish_stop`.
    Terminate { kill_process: bool },
}

/// Whether a request for process `id` concerns the stored process `current`
/// (it does when none is stored).
pub open spec fn is_current(current: Option<u8>, id: u8) -> bool {
    match current {
        Some(p) => p == id,
        None => true,
    }
}

/// The register and the action after a request to stop process `id`, while
/// `current` is the number of the stored process.
pub open spec fn stop_outcome(v: StatusView, current: Option<u8>, id: u8) -> (StatusView, StopAction) {
    if v.stage != LaunchStages::Started {
        (v, StopAction::Ignored)
    } else {
        let stopping = after_set(v, LaunchStages::Stopping);
        if !is_current(current, id) {
            (after_set(stopping, LaunchStages::Started), StopAction::KeepRunning)
        } else {
            (stopping, StopAction::Terminate { kill_process: current is Some })
        }
    }
}

/// Handles a request to stop process `id`: only a running process is stopped,
/// and only if it is the stored one (or none is stored); a request for another
/// process puts the stage back to `Started`.
pub fn stop_id(register: &mut ProcessStatus, current: Option<u8>, id: u8) -> (action: StopAction)
    ensures
        (final(register)@, action) == stop_outcome(old(register)@, current, id),
{
    if !register.switch_status(LaunchStages::Started, LaunchStages::Stopping) {
        return StopAction::Ignored;
    }
    let same = match current {
        Some(p) => p == id,
        None => true,
    };
    if !same {
        register.set_status(LaunchStages::Started);
        return StopAction::KeepRunning;
    }
    StopAction::Terminate { kill_process: current.is_some() }
}

/// Handles the user's request to stop: the stored process, if there is one,
/// is stopped as `stop_id` does; without one nothing happens.
pub fn stop(register: &mut ProcessStatus, current: Option<u8>) -> (action: StopAction)
    ensures
        match current {
            Some(id) => (final(register)@, action) == stop_outcome(old(register)@, current, id),
            None => final(register)@ == old(register)@ && action == StopAction::Ignored,
        },
{
    match current {
        Some(id) => stop_id(register, current, id),
        None => StopAction::Ignored,
    }
}

/// Ends a stop once the process is gone.
pub fn finish_stop(register: &mut ProcessStatus)
    ensures
        final(register)@ == after_set(old(register)@, LaunchStages::Stopped),
{
    register.set_status(LaunchStages::Stopped);
}

/// Hands out the numbers of successive runs, wrapping around after 255.
pub struct ProcessIds {
    next: u8,
}

impl View for ProcessIds {
    type V = u8;

    closed spec fn view(&self) -> u8 {
        self.next
    }
}

impl ProcessIds {
    /// Numbering that starts at 0.
    pub fn new() -> (r: ProcessIds)
        ensures
            r@ == 0,
    {
        ProcessIds { next: 0 }
    }

    /// The number of the next run; the following one is one more, modulo 256.
    pub fn allocate(&mut self) -> (id: u8)
        ensures
            id == old(self)@,
            final(self)@ == (if old(self)@ == 255 {
                0
            } else {
                old(self)@ + 1
            }),
    {
        let id = self.next;
        self.next = if self.next == 255 {
            0
        } else {
            self.next + 1
        };
        id
    }
}

/// The instruction sets that the operating system can report.
#[derive(Clone, Copy, Debug, PartialEq, Eq, Structural)]
pub enum OsBitness {
    X86_32,
    X86_64,
    Unknown,
}

#[verifier::external_type_specification]
#[verifier::external_body]
pub struct ExBitnessError(bitness::BitnessError);

/// Calls `bitness::os_bitness`, which asks the operating system for its
/// native instruction set (through `uname` on Unix, `GetNativeSystemInfo` on
/// Windows), and converts the answer variant by variant. The answer depends on
/// the machine, so nothing is promised of it.
#[verifier::external_body]
fn os_bitness() -> (r: Result<OsBitness, bitness::BitnessError>) {
    match bitness::os_bitness() {
        Ok(bitness::Bitness::X86_32) => Ok(OsBitness::X86_32),
        Ok(bitness::Bitness::X86_64) => Ok(OsBitness::X86_64),
        Ok(bitness::Bitness::Unknown) => Ok(OsBitness::Unknown),
        Err(e) => Err(e),
    }
}

/// Errors of the launcher.
#[derive(Debug)]
pub enum LauncherError {
    /// The operating system could not be asked for its instruction set.
    Bitness(bitness::BitnessError),
}

/// The folder of the build that fits a machine: the 64-bit build on x86-64,
/// the 32-bit build on anything else.
pub open spec fn folder_for(bitness: OsBitness) -> Seq<char> {
    if bitness == OsBitness::X86_64 {
        "x86_64"@
    } else {
        "x86"@
    }
}

/// The folder of the build that fits a machine.
pub fn goodbyedpi_folder(bitness: OsBitness) -> (r: &'static str)
    ensures
        r@ == folder_for(bitness),
{
    if bitness == OsBitness::X86_64 {
        "x86_64"
    } else {
        "x86"
    }
}

/// The folder of the build that fits the machine from what the operating
/// system reported: the folder for the reported instruction set, or the
/// error of asking.
pub fn folder_from_report(report: Result<OsBitness, bitness::BitnessError>) -> (r: Result<
    &'static str,
    LauncherError,
>)
    ensures
        match report {
            Ok(bitness) => r matches Ok(folder) && folder@ == folder_for(bitness),
            Err(_) => r is Err,
        },
{
    match report {
        Ok(bitness) => Ok(goodbyedpi_folder(bitness)),
        Err(e) => Err(LauncherError::Bitness(e)),
    }
}

/// The folder of the build that fits this machine, or the error of asking the
/// operating system.
pub fn detect_goodbyedpi_folder() -> (r: Result<&'static str, LauncherError>)
    ensures
        r matches Ok(folder) ==> (folder@ == folder_for(OsBitness::X86_64) || folder@ == folder_for(
            OsBitness::X86_32,
        )),
{
    folder_from_report(os_bitness())
}

/// Law: the 64-bit build is picked exactly on an x86-64 machine, and the
/// 32-bit build on every other; the two folders are `x86_64` and `x86`.
pub proof fn lemma_folder_choice(bitness: OsBitness)
    ensures
        folder_for(OsBitness::X86_64) == seq!['x', '8', '6', '_', '6', '4'],
        folder_for(OsBitness::X86_32) == seq!['x', '8', '6'],
        folder_for(OsBitness::Unknown) == seq!['x', '8', '6'],
        (folder_for(bitness) == folder_for(OsBitness::X86_64)) <==> (bitness == OsBitness::X86_64),
{
    reveal_strlit("x86_64");
    reveal_strlit("x86");
    assert(folder_for(OsBitness::X86_64) =~= seq!['x', '8', '6', '_', '6', '4']);
    assert(folder_for(OsBitness::X86_32) =~= seq!['x', '8', '6']);
    assert(folder_for(OsBitness::Unknown) =~= seq!['x', '8', '6']);
}

/// The arguments of the protection process: its most compatible mode (`-9`)
/// and the list of blocked sites to act on.
pub open spec fn goodbyedpi_args(blacklist: Seq<char>) -> Seq<Seq<char>> {
    seq!["-9"@, "--blacklist"@, blacklist]
}

/// The command that runs `executable` as process number `process_id`, with the
/// blacklist at `blacklist`.
pub fn goodbyedpi_command(executable: &str, blacklist: &str, process_id: u8) -> (r: ConsoleCommand)
    ensures
        r@ == (CommandView { program: executable@, args: goodbyedpi_args(blacklist@), process_id }),
{
    let mut command = ConsoleCommand::new(executable);
    command.arg("-9");
    command.arg("--blacklist");
    command.arg(blacklist);
    command.with_process_id(process_id);
    assert(command@.args =~= goodbyedpi_args(blacklist@));
    command
}

/// What to do when the process has exited, from the stage it was in then.
#[derive(Clone, Copy, Debug, PartialEq, Eq, Structural)]
pub struct ExitFollowUp {
    /// It ran, so it was killed from outside: report that.
    pub report_killed: bool,
    /// It was still starting: hand its exit code to the waiting start.
    pub notify_ready: bool,
}

/// What to do when the process has exited while the stage had number `code`.
pub fn exit_follow_up(code: u8) -> (r: ExitFollowUp)
    ensures
        r.report_killed == (code == stage_code(LaunchStages::Started)),
        r.notify_ready == (code == stage_code(LaunchStages::Starting)),
{
    ExitFollowUp {
        report_killed: code == LaunchStages::Started.as_repr(),
        notify_ready: code == LaunchStages::Starting.as_repr(),
    }
}

/// The line by which the process says it has started.
pub open spec fn ready_marker() -> Seq<char> {
    "GoodbyeDPI is now running"@
}

/// Law: readiness is signalled by exactly the text "GoodbyeDPI is now
/// running", so a line signals it if and only if it holds that text.
pub proof fn lemma_ready_marker_text(line: Seq<char>)
    ensures
        ready_marker() == seq![
            'G', 'o', 'o', 'd', 'b', 'y', 'e', 'D', 'P', 'I', ' ', 'i', 's', ' ', 'n', 'o', 'w', ' ',
            'r', 'u', 'n', 'n', 'i', 'n', 'g',
        ],
        has_substring(line, ready_marker()) <==> exists|i: int|
            0 <= i && i + 25 <= line.len() && #[trigger] line.subrange(i, i + 25) == seq![
                'G', 'o', 'o', 'd', 'b', 'y', 'e', 'D', 'P', 'I', ' ', 'i', 's', ' ', 'n', 'o', 'w', ' ',
                'r', 'u', 'n', 'n', 'i', 'n', 'g',
            ],
{
    reveal_strlit("GoodbyeDPI is now running");
    let m = seq![
        'G', 'o', 'o', 'd', 'b', 'y', 'e', 'D', 'P', 'I', ' ', 'i', 's', ' ', 'n', 'o', 'w', ' ',
        'r', 'u', 'n', 'n', 'i', 'n', 'g',
    ];
    assert(ready_marker() =~= m);
    assert(m.len() == 25);
    if has_substring(line, ready_marker()) {
        let i = choose|i: int| occurs_at(line, ready_marker(), i);
        assert(0 <= i && i + 25 <= line.len() && line.subrange(i, i + 25) == m);
    }
    if exists|i: int| 0 <= i && i + 25 <= line.len() && #[trigger] line.subrange(i, i + 25) == m {
        let i = choose|i: int| 0 <= i && i + 25 <= line.len() && #[trigger] line.subrange(i, i + 25) == m;
        assert(occurs_at(line, ready_marker(), i));
    }
}

/// What the output of the process brings.
pub enum OutputEvent {
    /// A line of output.
    Line(String),
    /// No line came within the start-up time.
    TimedOut,
    /// The process was killed.
    Killed,
    /// Reading failed, with this message.
    Failed(String),
    /// The output ended.
    Closed,
}

/// What to do with an event of the output.
pub enum OutputAction {
    /// Log `log`, tell the waiting start that the process runs if
    /// `notify_ready`, and read on.
    Continue { log: String, notify_ready: bool },
    /// Log `report` if any, stop reading, then log the end of the output and
    /// stop the process.
    Finish { report: Option<String> },
}

/// The message logged for a failure to read the output.
pub open spec fn output_error(message: Seq<char>) -> Seq<char> {
    "Output error: "@ + message
}

/// The text of a failure that ends the watch: timing out, being killed, or
/// what the reader reported.
pub open spec fn failure_text(event: OutputEvent) -> Seq<char> {
    match event {
        OutputEvent::TimedOut => "Timed out waiting for process to start"@,
        OutputEvent::Killed => "Process killed"@,
        OutputEvent::Failed(m) => m@,
        _ => Seq::empty(),
    }
}

/// Watches the output of one run of the process: whether it has reported
/// that it runs decides whether the watch still waits with a time limit.
pub struct OutputWatch {
    started: bool,
}

impl View for OutputWatch {
    type V = bool;

    closed spec fn view(&self) -> bool {
        self.started
    }
}

impl OutputWatch {
    /// A watch of a run that has not reported yet.
    pub fn new() -> (r: OutputWatch)
        ensures
            !r@,
    {
        OutputWatch { started: false }
    }

    /// Whether the next read is bounded by the start-up time: only until the
    /// process has reported that it runs.
    pub fn awaits_start(&self) -> (r: bool)
        ensures
            r == !self@,
    {
        !self.started
    }

    /// Decides what an event of the output leads to. A line that holds the
    /// ready marker marks the run as started and is reported to the waiting
    /// start; every line is logged; a failure is logged and ends the watch;
    /// the end of the output ends it silently.
    pub fn on_event(&mut self, event: OutputEvent) -> (action: OutputAction)
        ensures
            match event {
                OutputEvent::Line(line) => {
                    &&& action matches OutputAction::Continue { log, notify_ready }
                    &&& log@ == line@
                    &&& notify_ready == has_substring(line@, ready_marker())
                    &&& final(self)@ == (old(self)@ || has_substring(line@, ready_marker()))
                },
                OutputEvent::Closed => {
                    &&& action matches OutputAction::Finish { report }
                    &&& report is None
                    &&& final(self)@ == old(self)@
                },
                _ => {
                    &&& action matches OutputAction::Finish { report }
                    &&& report matches Some(text) && text@ == output_error(failure_text(event))
                    &&& final(self)@ == old(self)@
                },
            },
    {
        match event {
            OutputEvent::Line(line) => {
                let ready = contains(line.as_str(), "GoodbyeDPI is now running");
                if ready {
                    self.started = true;
                }
                OutputAction::Continue { log: line, notify_ready: ready }
            },
            OutputEvent::TimedOut => {
                OutputAction::Finish {
                    report: Some(concat_text("Output error: ", "Timed out waiting for process to start")),
                }
            },
            OutputEvent::Killed => {
                OutputAction::Finish { report: Some(concat_text("Output error: ", "Process killed")) }
            },
            OutputEvent::Failed(message) => {
                OutputAction::Finish { report: Some(concat_text("Output error: ", message.as_str())) }
            },
            OutputEvent::Closed => OutputAction::Finish { report: None },
        }
    }
}

/// Law: a granted stop of the stored process kills it, and one made when no
/// process is stored kills nothing, whatever the process number; the action
/// of stopping the stored process does not depend on its number.
pub proof fn lemma_stop_kills_stored_process(v: StatusView, id: u8, other: u8)
    requires
        v.stage == LaunchStages::Started,
    ensures
        stop_outcome(v, Some(id), id).1 == (StopAction::Terminate { kill_process: true }),
        stop_outcome(v, None, id).1 == (StopAction::Terminate { kill_process: false }),
        stop_outcome(v, Some(id), id) == stop_outcome(v, Some(other), other),
{
}

/// Law: a start is granted only from `Stopped`; after it the stage is
/// `Starting`, so a second start is refused until the first has finished.
pub proof fn lemma_start_exclusive(v: StatusView)
    ensures
        after_switch(after_switch(v, LaunchStages::Stopped, LaunchStages::Starting), LaunchStages::Stopped, LaunchStages::Starting)
            == after_switch(v, LaunchStages::Stopped, LaunchStages::Starting),
{
}

/// Law: a start that was granted ends in `Started` exactly when the process
/// reported 0, and in `Stopped` otherwise; the user interface hears
/// `Starting` and then that stage.
pub proof fn lemma_start_cycle(v: StatusView, exit_code: u32)
    requires
        v.stage == LaunchStages::Stopped,
    ensures
        ({
            let done = after_set(after_switch(v, LaunchStages::Stopped, LaunchStages::Starting), ready_stage(exit_code));
            &&& done.stage == (if exit_code == 0 { LaunchStages::Started } else { LaunchStages::Stopped })
            &&& done.announced == v.announced.push(LaunchStages::Starting).push(done.stage)
        }),
{
}

/// Law: a stop request changes nothing unless the process runs; a granted stop
/// of the current process ends in `Stopped` with `Stopping` and `Stopped`
/// announced; a stop of another process leaves it `Started`.
pub proof fn lemma_stop_cycle(v: StatusView, current: Option<u8>, id: u8)
    ensures
        v.stage != LaunchStages::Started ==> stop_outcome(v, current, id) == (v, StopAction::Ignored),
        v.stage == LaunchStages::Started && is_current(current, id) ==> ({
            let done = after_set(stop_outcome(v, current, id).0, LaunchStages::Stopped);
            &&& stop_outcome(v, current, id).1 is Terminate
            &&& done.stage == LaunchStages::Stopped
            &&& done.announced == v.announced.push(LaunchStages::Stopping).push(LaunchStages::Stopped)
        }),
        v.stage == LaunchStages::Started && !is_current(current, id) ==> ({
            let after = stop_outcome(v, current, id).0;
            &&& after.stage == LaunchStages::Started
            &&& after.announced == v.announced.push(LaunchStages::Stopping).push(LaunchStages::Started)
        }),
{
}

} // verus!
