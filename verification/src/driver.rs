//! The run of one request, as a state machine.
//!
//! The driver never touches a process. It hands out one `Action` at a time;
//! the caller performs it and answers with a `Reply`; the driver then hands
//! out the next action, until the action is to leave.
//!
//! A run is a straight line. A plain report asks for the brightness, shows
//! the notification and leaves. A set issues the write first. A relative
//! change asks for the brightness, issues the write it decided on, and then
//! reports as the others do. The first step that fails ends the run with
//! exit code 1; nothing already done is taken back.

use vstd::prelude::*;
use vstd::math::max;
use vstd::string::*;
use crate::adjust::{adjustment, WriteMode};
use crate::command::{
    adjust_brightness,
    brightness_command_view,
    notification_command,
    notification_command_view,
    query_command,
    query_command_view,
    set_brightness,
    summary_text,
    Command,
    CommandView,
};
use crate::decimal::{
    all_digits,
    ascii_bytes,
    decimal_string,
    decimal_text,
    lemma_decimal_text_of_positive,
};
use crate::icon::icon_name;
use crate::reading::{
    all_spaces,
    brightness_of,
    lemma_reads_decimal_text_with_fraction,
    lemma_white_space_around_is_ignored,
    parse_brightness,
    DECIMAL_POINT,
    DIGIT_FIVE,
    READING_MAX,
};
use crate::request::{Args, Mode, Request, RequestView, ValidationError};

verus! {

/// Exit code of a run in which every step succeeded.
pub const EXIT_SUCCESS: i32 = 0;

/// Exit code of a run that failed, and of flags that were refused.
pub const EXIT_FAILURE: i32 = 1;

/// What a finished process handed back.
#[derive(Clone, Debug, PartialEq, Eq)]
pub struct Reply {
    /// The process was started and left with status zero.
    pub ok: bool,
    /// What it wrote to standard output, where that was captured.
    pub output: Vec<u8>,
}

/// How a run ends.
#[derive(Clone, Debug, PartialEq, Eq)]
pub struct Outcome {
    /// The exit code of the process.
    pub code: i32,
    /// A line for standard output, if any.
    pub stdout: Option<String>,
    /// A line for standard error, if any.
    pub stderr: Option<String>,
}

/// What the caller is to do next.
#[derive(Clone, Debug, PartialEq, Eq)]
pub enum Action {
    /// Run the command with its standard output captured, and reply.
    Capture(Command),
    /// Run the command, and reply.
    Run(Command),
    /// Print the lines and leave with the exit code.
    Exit(Outcome),
}

/// Where a run stands: the reply that the driver waits for.
#[derive(Clone, Copy, Debug, PartialEq, Eq, Structural)]
pub enum Phase {
    /// The brightness was asked for, to decide a relative change.
    AwaitCurrent,
    /// The write was issued.
    AwaitWrite,
    /// The brightness was asked for, to report it.
    AwaitReading,
    /// The notification for this brightness was issued.
    AwaitNotify(u8),
    /// The run is over, with this exit code.
    Done(i32),
}

/// The mathematical content of an `Outcome`.
pub struct OutcomeView {
    pub code: i32,
    pub stdout: Option<Seq<char>>,
    pub stderr: Option<Seq<char>>,
}

/// The mathematical content of an `Action`.
pub enum ActionView {
    Capture(CommandView),
    Run(CommandView),
    Exit(OutcomeView),
}

/// The mathematical content of a `Driver`.
pub struct DriverView {
    pub request: RequestView,
    pub phase: Phase,
}

/// The run of one request.
#[derive(Clone, Copy, Debug)]
pub struct Driver {
    request: Request,
    phase: Phase,
}

/// The text of a line that may be absent.
pub open spec fn line_view(line: Option<String>) -> Option<Seq<char>> {
    match line {
        Some(text) => Some(text@),
        None => None,
    }
}

impl View for Outcome {
    type V = OutcomeView;

    open spec fn view(&self) -> OutcomeView {
        OutcomeView {
            code: self.code,
            stdout: line_view(self.stdout),
            stderr: line_view(self.stderr),
        }
    }
}

impl View for Action {
    type V = ActionView;

    open spec fn view(&self) -> ActionView {
        match self {
            Action::Capture(command) => ActionView::Capture(command@),
            Action::Run(command) => ActionView::Run(command@),
            Action::Exit(outcome) => ActionView::Exit(outcome@),
        }
    }
}

impl View for Driver {
    type V = DriverView;

    closed spec fn view(&self) -> DriverView {
        DriverView { request: self.request@, phase: self.phase }
    }
}

impl Reply {
    /// The brightness that the reply reports: none from a process that
    /// failed, else what its output reads as.
    pub open spec fn reading(&self) -> Option<u8> {
        if self.ok {
            brightness_of(self.output@)
        } else {
            None
        }
    }

    /// Reads the brightness from the reply of a query.
    pub fn brightness(&self) -> (reading: Option<u8>)
        ensures
            reading == self.reading(),
    {
        if self.ok {
            parse_brightness(self.output.as_slice())
        } else {
            None
        }
    }
}

impl Phase {
    /// An upper bound on the replies that the run still takes.
    pub open spec fn replies_left(self) -> nat {
        match self {
            Phase::AwaitCurrent => 4,
            Phase::AwaitWrite => 3,
            Phase::AwaitReading => 2,
            Phase::AwaitNotify(_) => 1,
            Phase::Done(_) => 0,
        }
    }
}

impl DriverView {
    /// The request is valid and the phase is one that its run passes
    /// through: only a relative change waits for the brightness to decide
    /// on, only a request that changes something waits for a write, a
    /// notification is for a brightness of at most 100, and a run ends with
    /// exit code 0 or 1.
    pub open spec fn consistent(self) -> bool {
        &&& self.request.valid()
        &&& match self.phase {
            Phase::AwaitCurrent => self.request.mode is Increase || self.request.mode is Decrease,
            Phase::AwaitWrite => self.request.mode !is Get,
            Phase::AwaitReading => true,
            Phase::AwaitNotify(brightness) => brightness <= READING_MAX,
            Phase::Done(code) => code == EXIT_SUCCESS || code == EXIT_FAILURE,
        }
    }
}

/// The line printed when the run has shown the notification.
pub open spec fn report_text(brightness: u8) -> Seq<char> {
    "Current brightness: "@ + decimal_text(brightness as nat) + "%"@
}

/// The line printed when the write of a request failed. A plain report
/// issues no write and has no such line.
pub open spec fn write_failure_text(mode: Mode) -> Option<Seq<char>> {
    match mode {
        Mode::SetTo(value) => Some(
            "Failed to set brightness to "@ + decimal_text(value as nat) + "."@,
        ),
        Mode::Increase(_) | Mode::Decrease(_) => Some("Failed to adjust the brightness."@),
        Mode::Get => None,
    }
}

/// The end of a run that never began: the flags were refused for `error`.
pub open spec fn refusal(error: ValidationError) -> OutcomeView {
    OutcomeView { code: EXIT_FAILURE, stdout: None, stderr: Some(error.message_text()) }
}

/// The end of a failed run that has nothing to say.
pub open spec fn silent_failure() -> OutcomeView {
    OutcomeView { code: EXIT_FAILURE, stdout: None, stderr: None }
}

/// The step that opens the report: ask for the brightness.
pub open spec fn report_step() -> (Phase, ActionView) {
    (Phase::AwaitReading, ActionView::Capture(query_command_view()))
}

/// The step that issues a write.
pub open spec fn write_step(mode: WriteMode, value: u8, request: RequestView) -> (
    Phase,
    ActionView,
) {
    (
        Phase::AwaitWrite,
        ActionView::Run(brightness_command_view(mode, value, request.fade_time, request.steps)),
    )
}

/// The step that ends a run.
pub open spec fn exit_step(outcome: OutcomeView) -> (Phase, ActionView) {
    (Phase::Done(outcome.code), ActionView::Exit(outcome))
}

/// The first phase and action of a request.
pub open spec fn first_step(request: RequestView) -> (Phase, ActionView) {
    match request.mode {
        Mode::Get => report_step(),
        Mode::SetTo(value) => write_step(WriteMode::SetTo, value, request),
        Mode::Increase(_) | Mode::Decrease(_) => (
            Phase::AwaitCurrent,
            ActionView::Capture(query_command_view()),
        ),
    }
}

/// The phase and action that follow a reply.
///
/// `ok` and `reading` are those of the reply: whether the process
/// succeeded, and the brightness that it reported.
pub open spec fn next_step(request: RequestView, phase: Phase, ok: bool, reading: Option<u8>) -> (
    Phase,
    ActionView,
) {
    match phase {
        Phase::AwaitCurrent => match adjustment(request.mode, reading) {
            Some(w) => write_step(w.mode, w.value, request),
            None => report_step(),
        },
        Phase::AwaitWrite => if ok {
            report_step()
        } else {
            exit_step(
                OutcomeView {
                    code: EXIT_FAILURE,
                    stdout: None,
                    stderr: write_failure_text(request.mode),
                },
            )
        },
        Phase::AwaitReading => match reading {
            Some(brightness) => (
                Phase::AwaitNotify(brightness),
                ActionView::Run(notification_command_view(brightness, request.timeout)),
            ),
            None => exit_step(silent_failure()),
        },
        Phase::AwaitNotify(brightness) => if ok {
            exit_step(
                OutcomeView {
                    code: EXIT_SUCCESS,
                    stdout: Some(report_text(brightness)),
                    stderr: None,
                },
            )
        } else {
            exit_step(silent_failure())
        },
        Phase::Done(code) => exit_step(OutcomeView { code, stdout: None, stderr: None }),
    }
}

/// Writes the line printed when the run has shown the notification.
pub fn report_line(brightness: u8) -> (text: String)
    ensures
        text@ == report_text(brightness),
{
    let mut text = String::from_str("Current brightness: ");
    let number = decimal_string(brightness as u32);
    text.append(number.as_str());
    text.append("%");
    text
}

/// Writes the line printed when the write of a request failed.
pub fn write_failure_line(mode: Mode) -> (line: Option<String>)
    ensures
        line_view(line) == write_failure_text(mode),
{
    match mode {
        Mode::SetTo(value) => {
            let mut text = String::from_str("Failed to set brightness to ");
            let number = decimal_string(value as u32);
            text.append(number.as_str());
            text.append(".");
            Some(text)
        },
        Mode::Increase(_) | Mode::Decrease(_) => Some(
            String::from_str("Failed to adjust the brightness."),
        ),
        Mode::Get => None,
    }
}

/// Every run opens in a consistent state, and every reply leads from a
/// consistent state to a consistent one, provided that the reading is one
/// that `brightness_of` can give: at most 100.
pub proof fn lemma_runs_stay_consistent(
    request: RequestView,
    phase: Phase,
    ok: bool,
    reading: Option<u8>,
)
    requires
        request.valid(),
        reading matches Some(brightness) ==> brightness <= READING_MAX,
    ensures
        (DriverView { request, phase: first_step(request).0 }).consistent(),
        (DriverView { request, phase }).consistent() ==> (DriverView {
            request,
            phase: next_step(request, phase, ok, reading).0,
        }).consistent(),
{
}

/// In a consistent state a failed write always says why on standard error,
/// and the brightness asked for to decide on a relative change is always
/// followed by a write.
pub proof fn lemma_consistent_steps(
    request: RequestView,
    phase: Phase,
    ok: bool,
    reading: Option<u8>,
)
    requires
        (DriverView { request, phase }).consistent(),
    ensures
        phase is AwaitCurrent ==> next_step(request, phase, ok, reading).0 is AwaitWrite,
        phase is AwaitWrite && !ok ==> ({
            &&& next_step(request, phase, ok, reading).1 matches ActionView::Exit(outcome)
            &&& outcome.stderr is Some
            &&& outcome.code == EXIT_FAILURE
        }),
{
}

/// A run ends with exit code 0 only by the reply that the notification
/// succeeded: every other way out is a failure.
pub proof fn lemma_success_needs_notification(
    request: RequestView,
    phase: Phase,
    ok: bool,
    reading: Option<u8>,
)
    requires
        phase !is Done,
    ensures
        next_step(request, phase, ok, reading).1 matches ActionView::Exit(outcome) ==> {
            &&& outcome.code == EXIT_SUCCESS <==> phase is AwaitNotify && ok
            &&& outcome.code == EXIT_SUCCESS || outcome.code == EXIT_FAILURE
            &&& outcome.stdout is Some <==> outcome.code == EXIT_SUCCESS
        },
{
}

/// When the brightness cannot be read for the report, the run ends at once
/// with exit code 1 and without a word: no notification is asked for.
pub proof fn lemma_unreadable_brightness_ends_run(request: RequestView, ok: bool)
    ensures
        next_step(request, Phase::AwaitReading, ok, None) == exit_step(silent_failure()),
        first_step(request).0 is AwaitReading <==> request.mode is Get,
{
}

/// A plain report, run against tools that work: the brightness is asked
/// for first; the notification then shows the brightness that was read, with
/// the timeout of the request; and the run ends with exit code 0 and the
/// line that names the same brightness.
pub proof fn lemma_report_run(request: RequestView, brightness: u8)
    requires
        request.mode is Get,
    ensures
        first_step(request) == report_step(),
        next_step(request, Phase::AwaitReading, true, Some(brightness)) == (
            Phase::AwaitNotify(brightness),
            ActionView::Run(notification_command_view(brightness, request.timeout)),
        ),
        notification_command_view(brightness, request.timeout).args[3] == icon_name(brightness),
        notification_command_view(brightness, request.timeout).args[8] == summary_text(brightness),
        next_step(request, Phase::AwaitNotify(brightness), true, None) == exit_step(
            OutcomeView {
                code: EXIT_SUCCESS,
                stdout: Some(report_text(brightness)),
                stderr: None,
            },
        ),
{
}

/// A decrease asks for the brightness first and then issues an absolute
/// set, never a relative decrease: of `max(current - delta, 1)` where the
/// brightness could be read, so that the value handed over is never 0, and
/// of the delta itself where it could not.
pub proof fn lemma_decrease_run(request: RequestView, delta: u8, ok: bool, current: Option<u8>)
    requires
        request.mode == Mode::Decrease(delta),
    ensures
        first_step(request) == (Phase::AwaitCurrent, ActionView::Capture(query_command_view())),
        next_step(request, Phase::AwaitCurrent, ok, current) == write_step(
            WriteMode::SetTo,
            match current {
                Some(c) => max(c - delta, 1) as u8,
                None => delta,
            },
            request,
        ),
        current is Some ==> (next_step(request, Phase::AwaitCurrent, ok, current).1
            matches ActionView::Run(command) && command.args[0] == "-set"@ && command.args[1]
            != decimal_text(0)),
{
    if let Some(c) = current {
        let target = max(c - delta, 1) as nat;
        lemma_decimal_text_of_positive(target);
    }
}

/// An increase asks for the brightness first. From a brightness of at most
/// 1 it then issues an absolute set of the delta; from any other, or from
/// one that could not be read, a relative increase by the delta.
pub proof fn lemma_increase_run(request: RequestView, delta: u8, ok: bool, current: Option<u8>)
    requires
        request.mode == Mode::Increase(delta),
    ensures
        first_step(request) == (Phase::AwaitCurrent, ActionView::Capture(query_command_view())),
        next_step(request, Phase::AwaitCurrent, ok, current) == write_step(
            if current matches Some(c) && c <= 1 {
                WriteMode::SetTo
            } else {
                WriteMode::Increase
            },
            delta,
            request,
        ),
{
}

/// A set, run against tools that work: the write hands over exactly the
/// value asked for, and when the backlight tool then reports that value
/// (the number as it was handed over, a point, a fraction below one half,
/// white space around it), the notification and the printed line both show
/// the value and the run ends with exit code 0.
pub proof fn lemma_set_then_report(
    request: RequestView,
    value: u8,
    pre: Seq<u8>,
    fraction: Seq<u8>,
    post: Seq<u8>,
)
    requires
        request.valid(),
        request.mode == Mode::SetTo(value),
        all_spaces(pre),
        all_spaces(post),
        all_digits(fraction),
        fraction.len() > 0 ==> fraction[0] < DIGIT_FIVE,
    ensures
        ({
            let written = first_step(request);
            let handed = decimal_text(value as nat);
            let output = pre + (ascii_bytes(handed) + seq![DECIMAL_POINT] + fraction) + post;
            let shown = next_step(request, Phase::AwaitReading, true, brightness_of(output));
            let left = next_step(request, Phase::AwaitNotify(value), true, None);
            &&& written == write_step(WriteMode::SetTo, value, request)
            &&& written.1 matches ActionView::Run(command) && command.args[1] == handed
            &&& next_step(request, written.0, true, None) == report_step()
            &&& brightness_of(output) == Some(value)
            &&& shown == (
                Phase::AwaitNotify(value),
                ActionView::Run(notification_command_view(value, request.timeout)),
            )
            &&& shown.1 matches ActionView::Run(command) && command.args[8] == summary_text(value)
            &&& left == exit_step(
                OutcomeView {
                    code: EXIT_SUCCESS,
                    stdout: Some(report_text(value)),
                    stderr: None,
                },
            )
        }),
{
    let handed = decimal_text(value as nat);
    let body = ascii_bytes(handed) + seq![DECIMAL_POINT] + fraction;
    lemma_reads_decimal_text_with_fraction(value as nat, fraction);
    lemma_white_space_around_is_ignored(pre, body, post);
}

impl Driver {
    #[verifier::type_invariant]
    closed spec fn well_formed(&self) -> bool {
        self@.consistent()
    }

    /// Validates the flags and, where they are acceptable, opens the run of
    /// the request they describe. Flags that are refused open no run and
    /// give no action: all that is left to do is to print why and leave
    /// with exit code 1.
    pub fn begin(args: &Args) -> (begun: Result<(Driver, Action), Outcome>)
        ensures
            begun is Ok <==> args.acceptable(),
            begun matches Ok(opened) ==> {
                &&& opened.0@.request == args.as_request()
                &&& (opened.0@.phase, opened.1@) == first_step(args.as_request())
                &&& opened.0@.consistent()
                &&& opened.1@ !is Exit
            },
            begun matches Err(outcome) ==> {
                &&& args.fault() matches Some(error)
                &&& outcome@ == refusal(error)
            },
            args.modes_given() > 1 ==> (begun matches Err(outcome) && outcome@ == refusal(
                ValidationError::ConflictingModes,
            )),
    {
        match Request::from_args(args) {
            Ok(request) => Ok(Driver::start(request)),
            Err(error) => Err(
                Outcome {
                    code: EXIT_FAILURE,
                    stdout: None,
                    stderr: Some(String::from_str(error.message())),
                },
            ),
        }
    }

    /// Opens the run of a request and hands out its first action.
    pub fn start(request: Request) -> (opened: (Driver, Action))
        ensures
            opened.0@.request == request@,
            (opened.0@.phase, opened.1@) == first_step(request@),
            opened.0@.consistent(),
            opened.1@ !is Exit,
    {
        proof {
            use_type_invariant(&request);
        }
        match request.mode() {
            Mode::Get => (
                Driver { request, phase: Phase::AwaitReading },
                Action::Capture(query_command()),
            ),
            Mode::SetTo(value) => {
                let command = set_brightness(value, &request);
                (Driver { request, phase: Phase::AwaitWrite }, Action::Run(command))
            },
            Mode::Increase(_) | Mode::Decrease(_) => (
                Driver { request, phase: Phase::AwaitCurrent },
                Action::Capture(query_command()),
            ),
        }
    }

    /// The request that is run.
    pub fn request(&self) -> (request: Request)
        ensures
            request@ == self@.request,
            self@.consistent(),
    {
        proof {
            use_type_invariant(self);
        }
        self.request
    }

    /// Where the run stands.
    pub fn phase(&self) -> (phase: Phase)
        ensures
            phase == self@.phase,
            self@.consistent(),
    {
        proof {
            use_type_invariant(self);
        }
        self.phase
    }

    /// Takes the reply to the last action and hands out the next action.
    ///
    /// The request stays as it is. The run moves on by at least one phase,
    /// so that it is over after at most four replies; once it is over, each
    /// further reply is answered with the same exit code.
    pub fn step(&mut self, reply: &Reply) -> (action: Action)
        ensures
            final(self)@.request == old(self)@.request,
            (final(self)@.phase, action@) == next_step(
                old(self)@.request,
                old(self)@.phase,
                reply.ok,
                reply.reading(),
            ),
            final(self)@.phase.replies_left() < old(self)@.phase.replies_left() || old(
                self,
            )@.phase is Done,
            action@ is Exit <==> final(self)@.phase is Done,
            final(self)@.consistent(),
    {
        proof {
            use_type_invariant(&*self);
        }
        match self.phase {
            Phase::AwaitCurrent => {
                let current = reply.brightness();
                match adjust_brightness(&self.request, current) {
                    Some(command) => {
                        self.phase = Phase::AwaitWrite;
                        Action::Run(command)
                    },
                    None => {
                        self.phase = Phase::AwaitReading;
                        Action::Capture(query_command())
                    },
                }
            },
            Phase::AwaitWrite => {
                if reply.ok {
                    self.phase = Phase::AwaitReading;
                    Action::Capture(query_command())
                } else {
                    self.phase = Phase::Done(EXIT_FAILURE);
                    Action::Exit(
                        Outcome {
                            code: EXIT_FAILURE,
                            stdout: None,
                            stderr: write_failure_line(self.request.mode()),
                        },
                    )
                }
            },
            Phase::AwaitReading => {
                match reply.brightness() {
                    Some(brightness) => {
                        self.phase = Phase::AwaitNotify(brightness);
                        Action::Run(notification_command(brightness, self.request.timeout()))
                    },
                    None => {
                        self.phase = Phase::Done(EXIT_FAILURE);
                        Action::Exit(Outcome { code: EXIT_FAILURE, stdout: None, stderr: None })
                    },
                }
            },
            Phase::AwaitNotify(brightness) => {
                if reply.ok {
                    self.phase = Phase::Done(EXIT_SUCCESS);
                    Action::Exit(
                        Outcome {
                            code: EXIT_SUCCESS,
                            stdout: Some(report_line(brightness)),
                            stderr: None,
                        },
                    )
                } else {
                    self.phase = Phase::Done(EXIT_FAILURE);
                    Action::Exit(Outcome { code: EXIT_FAILURE, stdout: None, stderr: None })
                }
            },
            Phase::Done(code) => Action::Exit(Outcome { code, stdout: None, stderr: None }),
        }
    }
}

} // verus!
