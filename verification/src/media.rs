//! The start-up check for GStreamer's PipeWire source, which audio and video
//! calls use, and the log line that reports its outcome.

use vstd::prelude::*;
use vstd::string::StringExecFns;

verus! {

/// The program that inspects GStreamer elements.
pub const GST_INSPECT_PROGRAM: &'static str = "gst-inspect-1.0";

/// The element that the check looks for.
pub const PIPEWIRE_ELEMENT: &'static str = "pipewiresrc";

/// How the inspection went.
pub enum ProbeOutcome {
    /// The program ran and found the element.
    Found,
    /// The program ran and did not find the element.
    Missing,
    /// The program could not be run, for the given reason.
    NotRun(String),
}

/// The severity of a log line.
#[derive(PartialEq, Eq, Structural, Clone, Copy)]
pub enum LogLevel {
    Info,
    Warn,
}

/// A line to write to the log.
pub struct LogLine {
    pub level: LogLevel,
    pub message: String,
}

/// The message that reports the outcome of the check.
pub open spec fn probe_message(outcome: ProbeOutcome) -> Seq<char> {
    match outcome {
        ProbeOutcome::Found => "GStreamer PipeWire support detected"@,
        ProbeOutcome::Missing => "gstreamer1.0-pipewire not available — audio/video calls may use ALSA fallback"@,
        ProbeOutcome::NotRun(e) => "Could not run gst-inspect-1.0: "@ + e@ + " — GStreamer may not be installed"@,
    }
}

/// The log line that reports the outcome of the check: information when the
/// element is there, a warning otherwise.
pub fn probe_report(outcome: ProbeOutcome) -> (l: LogLine)
    ensures
        l.level == (if outcome is Found {
            LogLevel::Info
        } else {
            LogLevel::Warn
        }),
        l.message@ == probe_message(outcome),
{
    match outcome {
        ProbeOutcome::Found => LogLine {
            level: LogLevel::Info,
            message: "GStreamer PipeWire support detected".to_owned(),
        },
        ProbeOutcome::Missing => LogLine {
            level: LogLevel::Warn,
            message: "gstreamer1.0-pipewire not available — audio/video calls may use ALSA fallback".to_owned(),
        },
        ProbeOutcome::NotRun(e) => {
            let mut m = "Could not run gst-inspect-1.0: ".to_owned();
            m.append(e.as_str());
            m.append(" — GStreamer may not be installed");
            LogLine { level: LogLevel::Warn, message: m }
        },
    }
}

} // verus!
