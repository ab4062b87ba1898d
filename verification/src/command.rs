//! The command lines handed to the outside tools.
//!
//! Nothing here runs a process. Each function builds the program name and
//! the argument list that a caller is to run, and states them exactly.

use vstd::prelude::*;
use vstd::string::*;
use crate::adjust::{adjustment, plan_adjustment, WriteMode};
use crate::decimal::{decimal_string, decimal_text};
use crate::icon::{icon_for, icon_name};
use crate::request::Request;

verus! {

/// The tool that reads and writes the backlight.
pub const BACKLIGHT_TOOL: &'static str = "xbacklight";

/// The tool that shows a desktop notification.
pub const NOTIFY_TOOL: &'static str = "notify-send";

/// Application name under which notifications are posted.
pub const APP_NAME: &'static str = "lxqt-brightness";

/// Identifier that lets each notification take the place of the last.
pub const REPLACE_ID: &'static str = "1";

/// A program and the arguments to run it with.
#[derive(Clone, Debug, PartialEq, Eq)]
pub struct Command {
    pub program: String,
    pub args: Vec<String>,
}

/// The mathematical content of a `Command`.
pub struct CommandView {
    pub program: Seq<char>,
    pub args: Seq<Seq<char>>,
}

impl View for Command {
    type V = CommandView;

    open spec fn view(&self) -> CommandView {
        CommandView { program: self.program@, args: self.args@.map_values(|a: String| a@) }
    }
}

impl WriteMode {
    /// The flag of the backlight tool that selects this mode.
    pub open spec fn flag_text(self) -> Seq<char> {
        match self {
            WriteMode::SetTo => "-set"@,
            WriteMode::Increase => "-inc"@,
            WriteMode::Decrease => "-dec"@,
        }
    }

    /// The flag of the backlight tool that selects this mode.
    pub fn flag(&self) -> (flag: &'static str)
        ensures
            flag@ == self.flag_text(),
    {
        match self {
            WriteMode::SetTo => "-set",
            WriteMode::Increase => "-inc",
            WriteMode::Decrease => "-dec",
        }
    }
}

/// The command that asks the backlight tool for the current brightness.
pub open spec fn query_command_view() -> CommandView {
    CommandView { program: BACKLIGHT_TOOL@, args: seq!["-get"@] }
}

/// The command that hands a value to the backlight tool: the mode's flag,
/// the value, then the fade time and the number of steps, each in decimal.
pub open spec fn brightness_command_view(
    mode: WriteMode,
    value: u8,
    fade_time: u16,
    steps: u8,
) -> CommandView {
    CommandView {
        program: BACKLIGHT_TOOL@,
        args: seq![
            mode.flag_text(),
            decimal_text(value as nat),
            "-time"@,
            decimal_text(fade_time as nat),
            "-steps"@,
            decimal_text(steps as nat),
        ],
    }
}

/// The summary line of the notification for a brightness.
pub open spec fn summary_text(brightness: u8) -> Seq<char> {
    "Brightness: "@ + decimal_text(brightness as nat) + "%"@
}

/// The command that shows the notification for a brightness.
pub open spec fn notification_command_view(brightness: u8, timeout: u32) -> CommandView {
    CommandView {
        program: NOTIFY_TOOL@,
        args: seq![
            "--app-name"@,
            APP_NAME@,
            "--icon"@,
            icon_name(brightness),
            "--replace-id"@,
            REPLACE_ID@,
            "--expire-time"@,
            decimal_text(timeout as nat),
            summary_text(brightness),
        ],
    }
}

/// Builds the command that asks the backlight tool for the current
/// brightness.
pub fn query_command() -> (command: Command)
    ensures
        command@ == query_command_view(),
{
    let mut args: Vec<String> = Vec::new();
    args.push(String::from_str("-get"));
    let command = Command { program: String::from_str(BACKLIGHT_TOOL), args };
    assert(command@.args =~= query_command_view().args);
    command
}

/// Builds the command that hands `value` to the backlight tool in the given
/// mode, with the fade parameters of the request.
pub fn brightness_command(mode: WriteMode, value: u8, request: &Request) -> (command: Command)
    ensures
        command@ == brightness_command_view(mode, value, request@.fade_time, request@.steps),
{
    let mut args: Vec<String> = Vec::new();
    args.push(String::from_str(mode.flag()));
    args.push(decimal_string(value as u32));
    args.push(String::from_str("-time"));
    args.push(decimal_string(request.fade_time() as u32));
    args.push(String::from_str("-steps"));
    args.push(decimal_string(request.steps() as u32));
    let command = Command { program: String::from_str(BACKLIGHT_TOOL), args };
    assert(command@.args =~= brightness_command_view(
        mode,
        value,
        request@.fade_time,
        request@.steps,
    ).args);
    command
}

/// Builds the command that sets the brightness to `brightness`.
pub fn set_brightness(brightness: u8, request: &Request) -> (command: Command)
    ensures
        command@ == brightness_command_view(
            WriteMode::SetTo,
            brightness,
            request@.fade_time,
            request@.steps,
        ),
{
    brightness_command(WriteMode::SetTo, brightness, request)
}

/// Builds the command that carries out the relative change of the request,
/// given the current brightness where it could be read. A request that asks
/// for no relative change needs no command.
pub fn adjust_brightness(request: &Request, current: Option<u8>) -> (command: Option<Command>)
    ensures
        match adjustment(request@.mode, current) {
            Some(w) => command matches Some(c) && c@ == brightness_command_view(
                w.mode,
                w.value,
                request@.fade_time,
                request@.steps,
            ),
            None => command is None,
        },
{
    match plan_adjustment(request.mode(), current) {
        Some(w) => Some(brightness_command(w.mode, w.value, request)),
        None => None,
    }
}

/// Writes the summary line of the notification for a brightness.
pub fn summary(brightness: u8) -> (text: String)
    ensures
        text@ == summary_text(brightness),
{
    let mut text = String::from_str("Brightness: ");
    let number = decimal_string(brightness as u32);
    text.append(number.as_str());
    text.append("%");
    text
}

/// Builds the command that shows the notification for a brightness.
pub fn notification_command(brightness: u8, timeout: u32) -> (command: Command)
    ensures
        command@ == notification_command_view(brightness, timeout),
{
    let mut args: Vec<String> = Vec::new();
    args.push(String::from_str("--app-name"));
    args.push(String::from_str(APP_NAME));
    args.push(String::from_str("--icon"));
    args.push(String::from_str(icon_for(brightness)));
    args.push(String::from_str("--replace-id"));
    args.push(String::from_str(REPLACE_ID));
    args.push(String::from_str("--expire-time"));
    args.push(decimal_string(timeout));
    args.push(summary(brightness));
    let command = Command { program: String::from_str(NOTIFY_TOOL), args };
    assert(command@.args =~= notification_command_view(brightness, timeout).args);
    command
}

} // verus!
