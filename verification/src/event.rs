use vstd::prelude::*;
use crate::directory::{Device, DeviceView};
use crate::schedule::Wait;
use crate::text::{decimal, decimal_string};

verus! {

/// How serious a log event is.
#[derive(Clone, Copy, Debug, PartialEq, Eq, Structural)]
pub enum Severity {
    Info,
    Error,
}

impl Severity {
    /// The word under which the severity is stored.
    pub open spec fn label(self) -> Seq<char> {
        match self {
            Severity::Info => "Info"@,
            Severity::Error => "Error"@,
        }
    }

    /// The word under which the severity is stored.
    pub fn as_str(&self) -> (word: &'static str)
        ensures
            word@ == self.label(),
    {
        match self {
            Severity::Info => "Info",
            Severity::Error => "Error",
        }
    }
}

/// How one attempt to command a device ended.
#[derive(Debug)]
pub enum SendOutcome {
    /// The datagram was accepted for transmission.
    Sent,
    /// Address, socket or send failed; the text describes the failure.
    Failed(String),
}

/// One record of the audit log.
#[derive(Debug)]
pub struct LogEvent {
    pub severity: Severity,
    pub message: String,
    pub machine: String,
    pub event_type: String,
}

/// A log event as plain text.
pub struct LogEventView {
    pub severity: Severity,
    pub message: Seq<char>,
    pub machine: Seq<char>,
    pub event_type: Seq<char>,
}

impl View for LogEvent {
    type V = LogEventView;

    open spec fn view(&self) -> LogEventView {
        LogEventView {
            severity: self.severity,
            message: self.message@,
            machine: self.machine@,
            event_type: self.event_type@,
        }
    }
}

/// The category under which every event of this job is filed.
pub open spec fn event_category() -> Seq<char> {
    "Morning"@
}

/// The machine name of an event that concerns every device.
pub open spec fn all_machines() -> Seq<char> {
    "All"@
}

/// The event with the given severity, message and machine, filed under this
/// job's category.
pub open spec fn event_of(severity: Severity, message: Seq<char>, machine: Seq<char>)
    -> LogEventView {
    LogEventView { severity, message, machine, event_type: event_category() }
}

/// The notice written before a sleep of `seconds` seconds; `sunrise` and
/// `target` are the two times as they are shown to the reader.
pub open spec fn sleep_message(sunrise: Seq<char>, seconds: nat, target: Seq<char>) -> Seq<char> {
    "Sunrise local is "@ + sunrise + ". Sleeping for "@ + decimal(seconds) + " seconds until "@
        + target + " before turning off morning lights."@
}

/// The notice written when the lights go off without a sleep.
pub open spec fn act_now_message(sunrise: Seq<char>) -> Seq<char> {
    "It is already close enough to sunrise. Sunrise local today is "@ + sunrise
        + ". Turning lights off immediately."@
}

/// The message for a device that took the command.
pub open spec fn success_message(device: DeviceView) -> Seq<char> {
    "Light "@ + device.name + " at "@ + device.address + " turned off!"@
}

/// The message for a device that could not be commanded.
pub open spec fn failure_message(device: DeviceView, reason: Seq<char>) -> Seq<char> {
    "Failed to turn off light "@ + device.name + " at "@ + device.address + ": "@ + reason
}

/// The one event that an attempt on `device` with the given outcome leaves in
/// the log: informational after a send, an error after a failure, and either
/// way under the device's name.
pub open spec fn outcome_event_of(device: DeviceView, outcome: SendOutcome) -> LogEventView {
    match outcome {
        SendOutcome::Sent => event_of(Severity::Info, success_message(device), device.name),
        SendOutcome::Failed(reason) => event_of(
            Severity::Error,
            failure_message(device, reason@),
            device.name,
        ),
    }
}

/// Builds a log event for this job: the three given columns and the job's
/// fixed category.
pub fn log_event(severity: Severity, message: String, machine: &str) -> (event: LogEvent)
    ensures
        event@ == event_of(severity, message@, machine@),
{
    LogEvent {
        severity,
        message,
        machine: String::from_str(machine),
        event_type: String::from_str("Morning"),
    }
}

/// The run-wide notice written before sleeping `seconds` seconds.
pub fn sleep_notice(sunrise_text: &str, seconds: u64, target_text: &str) -> (event: LogEvent)
    ensures
        event@ == event_of(
            Severity::Info,
            sleep_message(sunrise_text@, seconds as nat, target_text@),
            all_machines(),
        ),
{
    let mut message = String::from_str("Sunrise local is ");
    message.append(sunrise_text);
    message.append(". Sleeping for ");
    let count = decimal_string(seconds);
    message.append(count.as_str());
    message.append(" seconds until ");
    message.append(target_text);
    message.append(" before turning off morning lights.");
    log_event(Severity::Info, message, "All")
}

/// The run-wide notice written when the lights go off at once.
pub fn act_now_notice(sunrise_text: &str) -> (event: LogEvent)
    ensures
        event@ == event_of(Severity::Info, act_now_message(sunrise_text@), all_machines()),
{
    let mut message = String::from_str(
        "It is already close enough to sunrise. Sunrise local today is ",
    );
    message.append(sunrise_text);
    message.append(". Turning lights off immediately.");
    log_event(Severity::Info, message, "All")
}

/// The run-wide notice for a scheduling decision: the sleep notice with the
/// sunrise and target as shown in full, or the notice of immediate action with
/// the sunrise as shown on a wall clock.
pub open spec fn wait_notice_of(
    wait: Wait,
    sunrise: Seq<char>,
    target: Seq<char>,
    sunrise_clock: Seq<char>,
) -> LogEventView {
    match wait {
        Wait::Sleep(seconds) => event_of(
            Severity::Info,
            sleep_message(sunrise, seconds as nat, target),
            all_machines(),
        ),
        Wait::ActNow => event_of(Severity::Info, act_now_message(sunrise_clock), all_machines()),
    }
}

/// Builds the one run-wide notice that records the scheduling decision.
pub fn wait_notice(wait: Wait, sunrise_text: &str, target_text: &str, sunrise_clock_text: &str)
    -> (event: LogEvent)
    ensures
        event@ == wait_notice_of(wait, sunrise_text@, target_text@, sunrise_clock_text@),
        event@.severity == Severity::Info,
        event@.machine == all_machines(),
        event@.event_type == event_category(),
{
    match wait {
        Wait::Sleep(seconds) => sleep_notice(sunrise_text, seconds, target_text),
        Wait::ActNow => act_now_notice(sunrise_clock_text),
    }
}

/// Builds the log event for one attempt on `device`.
pub fn outcome_event(device: &Device, outcome: &SendOutcome) -> (event: LogEvent)
    ensures
        event@ == outcome_event_of(device@, *outcome),
        event@.machine == device@.name,
        event@.severity == Severity::Info <==> *outcome is Sent,
{
    match outcome {
        SendOutcome::Sent => {
            let mut message = String::from_str("Light ");
            message.append(device.name.as_str());
            message.append(" at ");
            message.append(device.address.as_str());
            message.append(" turned off!");
            log_event(Severity::Info, message, device.name.as_str())
        },
        SendOutcome::Failed(reason) => {
            let mut message = String::from_str("Failed to turn off light ");
            message.append(device.name.as_str());
            message.append(" at ");
            message.append(device.address.as_str());
            message.append(": ");
            message.append(reason.as_str());
            log_event(Severity::Error, message, device.name.as_str())
        },
    }
}

} // verus!
