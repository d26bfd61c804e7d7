//! The thread that reads the driver's events: it asks for the next event,
//! waits until the event is there or the thread is told to quit, reads the
//! event and reports it. Failures are reported and the thread goes on:
//! events are advisory.
use crate::device::{device_io_control_buffer_async, spec_pending, INFINITE, WAIT_OBJECT_0};
use crate::error::IoError;
use crate::event::{
    decode_event, dropped_reason_bits, read_event, EventBody, EventBodyView, EventId,
};
use vstd::prelude::*;

verus! {

/// Room for one event, in bytes.
pub const DRIVER_EVENT_BUFFER_SIZE: usize = 2048;

/// Result of a wait that ended because the owner of the first awaited
/// object went away.
pub const WAIT_ABANDONED_0: u32 = 0x80;

/// Number of objects that the thread waits on: the completion of the
/// operation, and the word to quit.
pub const EVENT_OBJECTS: u32 = 2;

/// What a system call of the event thread gave back.
#[derive(Debug, PartialEq, Eq)]
pub enum ReaderEvent {
    /// The word to quit was looked for without waiting; `result` is what
    /// the wait returned.
    QuitPolled { result: u32 },
    /// The operation that asks for the next event was handed to the device.
    Issued { returned: i32, last_error: IoError },
    /// The wait for the operation's completion or the word to quit ended.
    Waited { result: u32, last_error: IoError },
    /// The operation's outcome was fetched; `data` holds the bytes that the
    /// device wrote.
    Fetched { returned: i32, data: Vec<u8>, last_error: IoError },
}

/// An event of the thread as a mathematical value.
pub enum ReaderEventView {
    QuitPolled { result: u32 },
    Issued { returned: i32, last_error: IoError },
    Waited { result: u32, last_error: IoError },
    Fetched { returned: i32, data: Seq<u8>, last_error: IoError },
}

impl View for ReaderEvent {
    type V = ReaderEventView;

    open spec fn view(&self) -> ReaderEventView {
        match self {
            ReaderEvent::QuitPolled { result } => ReaderEventView::QuitPolled { result: *result },
            ReaderEvent::Issued { returned, last_error } => ReaderEventView::Issued {
                returned: *returned,
                last_error: *last_error,
            },
            ReaderEvent::Waited { result, last_error } => ReaderEventView::Waited {
                result: *result,
                last_error: *last_error,
            },
            ReaderEvent::Fetched { returned, data, last_error } => ReaderEventView::Fetched {
                returned: *returned,
                data: data@,
                last_error: *last_error,
            },
        }
    }
}

/// What the thread does next.
#[derive(Clone, Copy, Debug, PartialEq, Eq, Structural)]
pub enum ReaderCall {
    /// Look for the word to quit, without waiting.
    PollQuit,
    /// Ask the device for the next event, with room for this many bytes.
    IssueDequeue { capacity: usize },
    /// Wait for the operation's completion or the word to quit, this many
    /// milliseconds at most.
    Wait { timeout: u32 },
    /// Fetch the operation's outcome, waiting for it if `wait` is set.
    Fetch { wait: bool },
    /// Close the completion event and end.
    Stop,
}

/// What the thread has to report.
#[derive(Debug, PartialEq, Eq)]
pub enum Report {
    /// The operation could not be handed to the device.
    IoctlFailed(IoError),
    /// The wait failed.
    WaitFailed(IoError),
    /// The operation's outcome could not be fetched.
    ResultFailed(IoError),
    /// The driver sent an event. The number holds the bits of the event's
    /// reason that have no meaning and were dropped; it is worth a warning
    /// if it is not zero.
    Event(EventId, EventBody, u32),
}

/// A report as a mathematical value.
pub enum ReportView {
    IoctlFailed(IoError),
    WaitFailed(IoError),
    ResultFailed(IoError),
    Event(EventId, EventBodyView, u32),
}

impl View for Report {
    type V = ReportView;

    open spec fn view(&self) -> ReportView {
        match self {
            Report::IoctlFailed(error) => ReportView::IoctlFailed(*error),
            Report::WaitFailed(error) => ReportView::WaitFailed(*error),
            Report::ResultFailed(error) => ReportView::ResultFailed(*error),
            Report::Event(id, body, dropped) => ReportView::Event(*id, body@, *dropped),
        }
    }
}

/// How loud a report is.
#[derive(Clone, Copy, Debug, PartialEq, Eq, Structural)]
pub enum LogLevel {
    Trace,
    Error,
}

/// The report of a step, if it has one, as a mathematical value.
pub open spec fn report_view(report: Option<Report>) -> Option<ReportView> {
    match report {
        Some(report) => Some(report@),
        None => None,
    }
}

/// Which of the awaited objects ended a wait: the object at the returned
/// index, whether it was signalled or abandoned. `None` where the wait
/// failed.
pub open spec fn spec_signaled_index(result: u32) -> Option<u32> {
    if WAIT_OBJECT_0 <= result < WAIT_OBJECT_0 + EVENT_OBJECTS {
        Some((result - WAIT_OBJECT_0) as u32)
    } else if WAIT_ABANDONED_0 <= result < WAIT_ABANDONED_0 + EVENT_OBJECTS {
        Some((result - WAIT_ABANDONED_0) as u32)
    } else {
        None
    }
}

/// Says which of the awaited objects ended a wait.
pub fn signaled_index(result: u32) -> (index: Option<u32>)
    ensures
        index == spec_signaled_index(result),
{
    if result < WAIT_OBJECT_0 + EVENT_OBJECTS {
        Some(result - WAIT_OBJECT_0)
    } else if result >= WAIT_ABANDONED_0 && result < WAIT_ABANDONED_0 + EVENT_OBJECTS {
        Some(result - WAIT_ABANDONED_0)
    } else {
        None
    }
}

/// What the thread reports and does on an event.
///
/// The thread ends when the word to quit was given, which it looks for
/// before each operation and during each wait. It waits without limit, and
/// fetches the outcome of an operation that has completed. A step that fails is
/// reported, and the thread begins anew. A buffer that holds no event is
/// passed over in silence. The report of an event says which bits of its
/// reason were dropped for want of a meaning.
pub open spec fn reader_step(event: ReaderEventView) -> (Option<ReportView>, ReaderCall) {
    match event {
        ReaderEventView::QuitPolled { result } => if result == WAIT_OBJECT_0 {
            (None, ReaderCall::Stop)
        } else {
            (None, ReaderCall::IssueDequeue { capacity: DRIVER_EVENT_BUFFER_SIZE })
        },
        ReaderEventView::Issued { returned, last_error } => match spec_pending(
            returned,
            last_error,
        ) {
            Err(error) => (Some(ReportView::IoctlFailed(error)), ReaderCall::PollQuit),
            Ok(()) => (None, ReaderCall::Wait { timeout: INFINITE }),
        },
        ReaderEventView::Waited { result, last_error } => match spec_signaled_index(result) {
            None => (Some(ReportView::WaitFailed(last_error)), ReaderCall::PollQuit),
            Some(index) => if index == 1 {
                (None, ReaderCall::Stop)
            } else {
                (None, ReaderCall::Fetch { wait: true })
            },
        },
        ReaderEventView::Fetched { returned, data, last_error } => if returned == 0 {
            (Some(ReportView::ResultFailed(last_error)), ReaderCall::PollQuit)
        } else {
            match decode_event(data) {
                None => (None, ReaderCall::PollQuit),
                Some((id, body)) => (
                    Some(ReportView::Event(id, body, dropped_reason_bits(data))),
                    ReaderCall::PollQuit,
                ),
            }
        },
    }
}

/// Takes what the last system call of the event thread gave back, and says
/// what to report and what to do next.
pub fn event_thread_step(event: ReaderEvent) -> (step: (Option<Report>, ReaderCall))
    ensures
        (report_view(step.0), step.1) == reader_step(event@),
{
    match event {
        ReaderEvent::QuitPolled { result } => {
            if result == WAIT_OBJECT_0 {
                (None, ReaderCall::Stop)
            } else {
                (None, ReaderCall::IssueDequeue { capacity: DRIVER_EVENT_BUFFER_SIZE })
            }
        },
        ReaderEvent::Issued { returned, last_error } => {
            match device_io_control_buffer_async(returned, last_error) {
                Err(error) => (Some(Report::IoctlFailed(error)), ReaderCall::PollQuit),
                Ok(()) => (None, ReaderCall::Wait { timeout: INFINITE }),
            }
        },
        ReaderEvent::Waited { result, last_error } => match signaled_index(result) {
            None => (Some(Report::WaitFailed(last_error)), ReaderCall::PollQuit),
            Some(index) => {
                if index == 1 {
                    (None, ReaderCall::Stop)
                } else {
                    (None, ReaderCall::Fetch { wait: true })
                }
            },
        },
        ReaderEvent::Fetched { returned, data, last_error } => {
            if returned == 0 {
                (Some(Report::ResultFailed(last_error)), ReaderCall::PollQuit)
            } else {
                let (parsed, dropped) = read_event(data.as_slice());
                match parsed {
                    None => (None, ReaderCall::PollQuit),
                    Some((id, body)) => (
                        Some(Report::Event(id, body, dropped)),
                        ReaderCall::PollQuit,
                    ),
                }
            }
        },
    }
}

/// The words by which an event is named in a report.
pub open spec fn spec_event_label(id: EventId) -> Seq<char> {
    match id {
        EventId::StartSplittingProcess | EventId::ErrorStartSplittingProcess =>
            "Start splitting process"@,
        EventId::StopSplittingProcess | EventId::ErrorStopSplittingProcess =>
            "Stop splitting process"@,
        EventId::ErrorMessage => "ErrorMessage"@,
    }
}

/// The words by which an event is named in a report.
pub fn event_label(id: EventId) -> (label: &'static str)
    ensures
        label@ == spec_event_label(id),
{
    match id {
        EventId::StartSplittingProcess | EventId::ErrorStartSplittingProcess =>
            "Start splitting process",
        EventId::StopSplittingProcess | EventId::ErrorStopSplittingProcess =>
            "Stop splitting process",
        EventId::ErrorMessage => "ErrorMessage",
    }
}

/// How loud a report is: the news that a process is split or no longer
/// split is a trace, everything else an error.
pub fn report_level(report: &Report) -> (level: LogLevel)
    ensures
        level == match report@ {
            ReportView::Event(_, EventBodyView::SplittingEvent { .. }, _) => LogLevel::Trace,
            _ => LogLevel::Error,
        },
{
    match report {
        Report::Event(_, EventBody::SplittingEvent { .. }, _) => LogLevel::Trace,
        _ => LogLevel::Error,
    }
}

} // verus!
