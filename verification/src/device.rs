//! The client side of the driver's device: the requests it understands, how
//! one control operation runs to its end, and the steps by which a freshly
//! opened device is made ready.
//!
//! Nothing here touches the device. Each function takes what the last system
//! call gave back and says what to do next; the caller makes the calls.
use crate::addresses::{InterfaceAddresses, Ipv4Address, Ipv6Address};
use crate::config::{
    checked_config_size, config_bytes, config_size, make_process_config, paths_of,
};
use crate::error::{DeviceHandleError, IoError, IoErrorKind};
use crate::ioctl::DriverIoctlCode;
use crate::process::{
    build_process_tree, checked_registry_size, first_failure, items_of, process_tree,
    registry_bytes, registry_size, serialize_process_tree, ProcessInfo, SnapshotItem,
    SnapshotItemView,
};
use crate::state::{DriverState, UnknownDriverState};
use crate::wire::{get_le, le_value, lemma_pow256_values, signed32, to_signed32};
use vstd::prelude::*;

verus! {

/// The name under which the driver's device is reached.
pub const DRIVER_SYMBOLIC_NAME: &'static str = "\\\\.\\MULLVADSPLITTUNNEL";

/// The flag that opens a file for operations that complete in the
/// background.
pub const FILE_FLAG_OVERLAPPED: u32 = 0x4000_0000;

/// How the device is opened.
#[derive(Clone, Copy, Debug, PartialEq, Eq, Structural)]
pub struct OpenOptions {
    pub read: bool,
    pub write: bool,
    /// What others may do with the device meanwhile: zero for nothing.
    pub share_mode: u32,
    pub custom_flags: u32,
    pub attributes: u32,
}

/// The system's code for a file that does not exist.
pub const ERROR_FILE_NOT_FOUND: i32 = 2;

/// The system's code for a refused access.
pub const ERROR_ACCESS_DENIED: i32 = 5;

/// The system's code for an operation that goes on in the background.
pub const ERROR_IO_PENDING: i32 = 997;

/// The timeout that never ends.
pub const INFINITE: u32 = 0xFFFF_FFFF;

/// Result of a wait that ended because the first awaited object was signalled.
pub const WAIT_OBJECT_0: u32 = 0;

/// Result of a wait that ended because the owner of the first awaited object
/// went away.
pub const WAIT_ABANDONED: u32 = 0x80;

/// Result of a wait that failed.
pub const WAIT_FAILED: u32 = 0xFFFF_FFFF;

/// Number of bytes in which the driver reports its state.
pub const STATE_SIZE: u32 = 8;

/// One control operation, ready to be handed to the device.
#[derive(Clone, Debug, PartialEq, Eq)]
pub struct IoctlRequest {
    pub code: DriverIoctlCode,
    /// The bytes to send, if the operation takes any.
    pub input: Option<Vec<u8>>,
    /// How many bytes of output to make room for.
    pub output_size: u32,
}

/// A control operation as a mathematical value.
pub struct IoctlRequestView {
    pub code: DriverIoctlCode,
    pub input: Option<Seq<u8>>,
    pub output_size: u32,
}

impl View for IoctlRequest {
    type V = IoctlRequestView;

    open spec fn view(&self) -> IoctlRequestView {
        IoctlRequestView {
            code: self.code,
            input: match self.input {
                Some(bytes) => Some(bytes@),
                None => None,
            },
            output_size: self.output_size,
        }
    }
}

impl IoctlRequestView {
    /// An operation that neither sends nor receives data.
    pub open spec fn bare(code: DriverIoctlCode) -> IoctlRequestView {
        IoctlRequestView { code, input: None, output_size: 0 }
    }

    /// An operation that sends `input` and receives nothing.
    pub open spec fn sending(code: DriverIoctlCode, input: Seq<u8>) -> IoctlRequestView {
        IoctlRequestView { code, input: Some(input), output_size: 0 }
    }

    /// The operation that asks for the driver's state.
    pub open spec fn get_state() -> IoctlRequestView {
        IoctlRequestView { code: DriverIoctlCode::GetState, input: None, output_size: STATE_SIZE }
    }
}

/// What a system call of a control operation gave back.
#[derive(Clone, Copy, Debug, PartialEq, Eq, Structural)]
pub enum BufferEvent {
    /// The operation was handed to the device. `returned` is what the call
    /// returned, `last_error` the thread's last error after it.
    Issued { returned: i32, last_error: IoError },
    /// The wait for the operation's completion ended with `result`.
    Waited { result: u32, last_error: IoError },
    /// The operation's outcome was fetched: `returned` is what the call
    /// returned, `transferred` the number of bytes that the device wrote.
    Fetched { returned: i32, transferred: u32, last_error: IoError },
}

/// What a system call of a control operation gave back, the creation of the
/// operation's completion event included.
#[derive(Clone, Copy, Debug, PartialEq, Eq)]
pub enum IoctlEvent {
    /// The completion event was created, or could not be.
    EventCreated(Result<(), IoError>),
    /// A later step of the operation.
    Buffer(BufferEvent),
}

/// What to do next with a control operation.
#[derive(Clone, Copy, Debug, PartialEq, Eq, Structural)]
pub enum IoctlProgress {
    /// Hand the operation to the device, with room for this much output.
    Issue { output_capacity: Option<u32> },
    /// Wait for the completion event, this many milliseconds at most.
    Wait { timeout: u32 },
    /// Fetch the operation's outcome, waiting for it if `wait` is set.
    Fetch { wait: bool },
    /// The operation succeeded. Where it has an output buffer, the device
    /// wrote `output_len` bytes to it.
    Complete { output_len: Option<u32> },
    /// The operation failed.
    Fail(IoError),
}

/// The milliseconds to wait for: the given number as far as thirty-two bits
/// hold it, or for ever where none is given.
pub open spec fn spec_wait_timeout(timeout_millis: Option<u128>) -> u32 {
    match timeout_millis {
        Some(millis) => (millis % 0x1_0000_0000) as u32,
        None => INFINITE,
    }
}

/// Whether the device took an operation as it must: the call reports no
/// immediate completion, and the last error says that the operation is
/// pending.
pub open spec fn spec_pending(returned: i32, last_error: IoError) -> Result<(), IoError> {
    if returned != 0 {
        Err(IoError::ExpectedPendingOperation)
    } else if last_error.spec_raw_os_error() != Some(ERROR_IO_PENDING) {
        Err(last_error)
    } else {
        Ok(())
    }
}

/// The step that follows an event of a control operation.
pub open spec fn spec_buffer_step(
    has_output: bool,
    timeout_millis: Option<u128>,
    event: BufferEvent,
) -> IoctlProgress {
    match event {
        BufferEvent::Issued { returned, last_error } => match spec_pending(returned, last_error) {
            Err(error) => IoctlProgress::Fail(error),
            Ok(()) => IoctlProgress::Wait { timeout: spec_wait_timeout(timeout_millis) },
        },
        BufferEvent::Waited { result, last_error } => {
            if result == WAIT_FAILED {
                IoctlProgress::Fail(last_error)
            } else if result == WAIT_ABANDONED {
                IoctlProgress::Fail(IoError::AbandonedMutex)
            } else if result == WAIT_OBJECT_0 {
                IoctlProgress::Fetch { wait: false }
            } else {
                IoctlProgress::Fail(IoError::spec_from_raw_os_error(signed32(result as nat)))
            }
        },
        BufferEvent::Fetched { returned, transferred, last_error } => {
            if returned == 0 {
                IoctlProgress::Fail(last_error)
            } else {
                IoctlProgress::Complete {
                    output_len: if has_output {
                        Some(transferred)
                    } else {
                        None
                    },
                }
            }
        },
    }
}

/// The step that follows an event of a control operation with `output_size`
/// bytes of room for output.
pub open spec fn spec_ioctl_step(
    output_size: u32,
    timeout_millis: Option<u128>,
    event: IoctlEvent,
) -> IoctlProgress {
    match event {
        IoctlEvent::EventCreated(Err(error)) => IoctlProgress::Fail(error),
        IoctlEvent::EventCreated(Ok(())) => IoctlProgress::Issue {
            output_capacity: if output_size > 0 {
                Some(output_size)
            } else {
                None
            },
        },
        IoctlEvent::Buffer(event) => spec_buffer_step(output_size > 0, timeout_millis, event),
    }
}

/// Judges how the device took an operation that must complete in the
/// background. The result must then be obtained by fetching the outcome.
///
/// An operation that completed at once is an error, and so is any last
/// error other than the one for a pending operation.
pub fn device_io_control_buffer_async(returned: i32, last_error: IoError) -> (verdict: Result<
    (),
    IoError,
>)
    ensures
        verdict == spec_pending(returned, last_error),
{
    if returned != 0 {
        return Err(IoError::ExpectedPendingOperation);
    }
    match last_error.raw_os_error() {
        Some(code) => {
            if code != ERROR_IO_PENDING {
                return Err(last_error);
            }
        },
        None => {
            return Err(last_error);
        },
    }
    Ok(())
}

/// The milliseconds to wait for a control operation.
pub fn wait_timeout(timeout_millis: Option<u128>) -> (timeout: u32)
    ensures
        timeout == spec_wait_timeout(timeout_millis),
{
    match timeout_millis {
        Some(millis) => (millis % 0x1_0000_0000) as u32,
        None => INFINITE,
    }
}

/// Says what follows an event of a control operation: after the hand-over
/// the wait, after the wait the fetch, after the fetch the end, or the
/// failure at the step that went wrong.
pub fn device_io_control_buffer(
    has_output: bool,
    timeout_millis: Option<u128>,
    event: BufferEvent,
) -> (next: IoctlProgress)
    ensures
        next == spec_buffer_step(has_output, timeout_millis, event),
{
    match event {
        BufferEvent::Issued { returned, last_error } => {
            match device_io_control_buffer_async(returned, last_error) {
                Err(error) => IoctlProgress::Fail(error),
                Ok(()) => IoctlProgress::Wait { timeout: wait_timeout(timeout_millis) },
            }
        },
        BufferEvent::Waited { result, last_error } => {
            if result == WAIT_FAILED {
                IoctlProgress::Fail(last_error)
            } else if result == WAIT_ABANDONED {
                IoctlProgress::Fail(IoError::AbandonedMutex)
            } else if result == WAIT_OBJECT_0 {
                IoctlProgress::Fetch { wait: false }
            } else {
                IoctlProgress::Fail(IoError::from_raw_os_error(to_signed32(result)))
            }
        },
        BufferEvent::Fetched { returned, transferred, last_error } => {
            if returned == 0 {
                IoctlProgress::Fail(last_error)
            } else if has_output {
                IoctlProgress::Complete { output_len: Some(transferred) }
            } else {
                IoctlProgress::Complete { output_len: None }
            }
        },
    }
}

/// Says what follows an event of a control operation that owns its
/// completion event: once the event exists the hand-over, with an output
/// buffer exactly if `output_size` is not zero, then as
/// `device_io_control_buffer` says.
pub fn device_io_control(output_size: u32, timeout_millis: Option<u128>, event: IoctlEvent) -> (next:
    IoctlProgress)
    ensures
        next == spec_ioctl_step(output_size, timeout_millis, event),
{
    match event {
        IoctlEvent::EventCreated(Err(error)) => IoctlProgress::Fail(error),
        IoctlEvent::EventCreated(Ok(())) => {
            if output_size > 0 {
                IoctlProgress::Issue { output_capacity: Some(output_size) }
            } else {
                IoctlProgress::Issue { output_capacity: None }
            }
        },
        IoctlEvent::Buffer(event) => device_io_control_buffer(
            output_size > 0,
            timeout_millis,
            event,
        ),
    }
}

/// The driver's state as an operation's output reports it: eight bytes,
/// little-endian.
pub open spec fn spec_parse_driver_state(output: Seq<u8>) -> Result<DriverState, IoError> {
    match DriverState::from_code(le_value(output.subrange(0, 8)) as u64) {
        Ok(state) => Ok(state),
        Err(unknown) => Err(IoError::UnknownDriverState(unknown)),
    }
}

/// Reads the driver's state from the output of the operation that asks
/// for it.
pub fn parse_driver_state(output: &[u8]) -> (state: Result<DriverState, IoError>)
    requires
        output@.len() >= 8,
    ensures
        state == spec_parse_driver_state(output@),
{
    proof {
        lemma_pow256_values();
    }
    let raw_state: u64 = get_le(output, 0, 8);
    match DriverState::try_from(raw_state) {
        Ok(state) => Ok(state),
        Err(unknown) => Err(IoError::UnknownDriverState(unknown)),
    }
}

/// Why the device could not be connected to: no such device, access
/// denied, or whatever else the system said.
pub open spec fn spec_connect_error(error: IoError) -> DeviceHandleError {
    if error.spec_raw_os_error() == Some(ERROR_FILE_NOT_FOUND) {
        DeviceHandleError::ConnectionFailed
    } else if error.spec_raw_os_error() == Some(ERROR_ACCESS_DENIED) {
        DeviceHandleError::ConnectionDenied
    } else {
        DeviceHandleError::ConnectionError(error)
    }
}

/// Says why the device could not be connected to.
pub fn connect_error(error: IoError) -> (reason: DeviceHandleError)
    ensures
        reason == spec_connect_error(error),
{
    match error.raw_os_error() {
        Some(code) => {
            if code == ERROR_FILE_NOT_FOUND {
                DeviceHandleError::ConnectionFailed
            } else if code == ERROR_ACCESS_DENIED {
                DeviceHandleError::ConnectionDenied
            } else {
                DeviceHandleError::ConnectionError(error)
            }
        },
        None => DeviceHandleError::ConnectionError(error),
    }
}

/// How far the opening of the device has come. Each phase but the last two
/// waits for the outcome of one piece of work.
#[derive(Clone, Copy, Debug, PartialEq, Eq, Structural)]
pub enum OpenPhase {
    /// The device is being connected to.
    Connecting,
    /// The driver's state is being asked for, to see whether the driver
    /// needs to be initialized.
    QueryingBeforeInitialize,
    /// The driver is being initialized.
    Initializing,
    /// The driver's state is being asked for, to see whether the driver
    /// needs the process tree.
    QueryingBeforeRegister,
    /// The process table is being read.
    ListingProcesses,
    /// The process tree is being registered.
    RegisteringProcesses,
    /// Any earlier exclusion configuration is being cleared.
    ClearingConfig,
    /// The device is open and the driver ready.
    Open,
    /// The opening failed.
    Failed,
}

/// The outcome of the work that an opening waited for.
#[derive(Debug, PartialEq, Eq)]
pub enum OpenReply {
    /// The device was connected to, or could not be.
    Connected(Result<(), IoError>),
    /// A control operation ended, with its output if it has any.
    Ioctl(Result<Option<Vec<u8>>, IoError>),
    /// The process table was read, or could not be.
    Processes(Result<Vec<SnapshotItem>, IoError>),
}

/// An outcome as a mathematical value.
pub enum OpenReplyView {
    Connected(Result<(), IoError>),
    Ioctl(Result<Option<Seq<u8>>, IoError>),
    Processes(Result<Seq<SnapshotItemView>, IoError>),
}

impl View for OpenReply {
    type V = OpenReplyView;

    open spec fn view(&self) -> OpenReplyView {
        match self {
            OpenReply::Connected(outcome) => OpenReplyView::Connected(*outcome),
            OpenReply::Ioctl(Ok(Some(output))) => OpenReplyView::Ioctl(Ok(Some(output@))),
            OpenReply::Ioctl(Ok(None)) => OpenReplyView::Ioctl(Ok(None)),
            OpenReply::Ioctl(Err(error)) => OpenReplyView::Ioctl(Err(*error)),
            OpenReply::Processes(Ok(snapshot)) => OpenReplyView::Processes(Ok(items_of(snapshot@))),
            OpenReply::Processes(Err(error)) => OpenReplyView::Processes(Err(*error)),
        }
    }
}

/// The work to do next while a device is opened.
#[derive(Debug, PartialEq, Eq)]
pub enum OpenAction {
    /// Perform a control operation.
    Ioctl(IoctlRequest),
    /// Read the process table.
    ListProcesses,
    /// Nothing more: the device is open, or the opening failed.
    Finish(Result<(), DeviceHandleError>),
}

/// A piece of work as a mathematical value.
pub enum OpenActionView {
    Ioctl(IoctlRequestView),
    ListProcesses,
    Finish(Result<(), DeviceHandleError>),
}

impl View for OpenAction {
    type V = OpenActionView;

    open spec fn view(&self) -> OpenActionView {
        match self {
            OpenAction::Ioctl(request) => OpenActionView::Ioctl(request@),
            OpenAction::ListProcesses => OpenActionView::ListProcesses,
            OpenAction::Finish(outcome) => OpenActionView::Finish(*outcome),
        }
    }
}

/// Whether `reply` is the kind of outcome that `phase` waits for. A phase
/// that asks for the driver's state waits for at least eight bytes of output.
pub open spec fn expects(phase: OpenPhase, reply: OpenReplyView) -> bool {
    match phase {
        OpenPhase::Connecting => reply is Connected,
        OpenPhase::QueryingBeforeInitialize | OpenPhase::QueryingBeforeRegister => match reply {
            OpenReplyView::Ioctl(Ok(Some(output))) => output.len() >= 8,
            OpenReplyView::Ioctl(Ok(None)) => false,
            OpenReplyView::Ioctl(Err(_)) => true,
            _ => false,
        },
        OpenPhase::Initializing | OpenPhase::RegisteringProcesses | OpenPhase::ClearingConfig =>
            reply is Ioctl,
        OpenPhase::ListingProcesses => reply is Processes,
        OpenPhase::Open | OpenPhase::Failed => false,
    }
}

/// The end of an opening that failed.
pub open spec fn failed(error: DeviceHandleError) -> (OpenPhase, OpenActionView) {
    (OpenPhase::Failed, OpenActionView::Finish(Err(error)))
}

/// The operation that clears the configuration, as the next piece of work.
pub open spec fn clearing() -> (OpenPhase, OpenActionView) {
    (
        OpenPhase::ClearingConfig,
        OpenActionView::Ioctl(IoctlRequestView::bare(DriverIoctlCode::ClearConfiguration)),
    )
}

/// The phase that follows `phase` on `reply`, and the work to do in it.
///
/// After connecting, the driver's state is asked for. A driver that has
/// only started is initialized, and the state asked for again. A driver
/// that is initialized gets the process tree. Then the configuration is
/// cleared, whatever the state, and the device is open. Any failure ends
/// the opening with the error of the step that failed.
pub open spec fn open_step(phase: OpenPhase, reply: OpenReplyView) -> (OpenPhase, OpenActionView) {
    match (phase, reply) {
        (OpenPhase::Connecting, OpenReplyView::Connected(Err(error))) => failed(
            spec_connect_error(error),
        ),
        (OpenPhase::Connecting, OpenReplyView::Connected(Ok(()))) => (
            OpenPhase::QueryingBeforeInitialize,
            OpenActionView::Ioctl(IoctlRequestView::get_state()),
        ),
        (OpenPhase::QueryingBeforeInitialize, OpenReplyView::Ioctl(Err(error))) => failed(
            DeviceHandleError::GetStateError(error),
        ),
        (OpenPhase::QueryingBeforeInitialize, OpenReplyView::Ioctl(Ok(Some(output)))) => {
            match spec_parse_driver_state(output) {
                Err(error) => failed(DeviceHandleError::GetStateError(error)),
                Ok(DriverState::Started) => (
                    OpenPhase::Initializing,
                    OpenActionView::Ioctl(IoctlRequestView::bare(DriverIoctlCode::Initialize)),
                ),
                Ok(_) => (
                    OpenPhase::QueryingBeforeRegister,
                    OpenActionView::Ioctl(IoctlRequestView::get_state()),
                ),
            }
        },
        (OpenPhase::Initializing, OpenReplyView::Ioctl(Err(error))) => failed(
            DeviceHandleError::InitializationError(error),
        ),
        (OpenPhase::Initializing, OpenReplyView::Ioctl(Ok(_))) => (
            OpenPhase::QueryingBeforeRegister,
            OpenActionView::Ioctl(IoctlRequestView::get_state()),
        ),
        (OpenPhase::QueryingBeforeRegister, OpenReplyView::Ioctl(Err(error))) => failed(
            DeviceHandleError::GetStateError(error),
        ),
        (OpenPhase::QueryingBeforeRegister, OpenReplyView::Ioctl(Ok(Some(output)))) => {
            match spec_parse_driver_state(output) {
                Err(error) => failed(DeviceHandleError::GetStateError(error)),
                Ok(DriverState::Initialized) => (
                    OpenPhase::ListingProcesses,
                    OpenActionView::ListProcesses,
                ),
                Ok(_) => clearing(),
            }
        },
        (OpenPhase::ListingProcesses, OpenReplyView::Processes(Err(error))) => failed(
            DeviceHandleError::RegisterProcessesError(error),
        ),
        (OpenPhase::ListingProcesses, OpenReplyView::Processes(Ok(items))) => {
            match first_failure(items, items.len() as int) {
                Some(error) => failed(DeviceHandleError::RegisterProcessesError(error)),
                None => if registry_size(process_tree(items)) > usize::MAX {
                    failed(DeviceHandleError::RegisterProcessesError(IoError::BufferTooLarge))
                } else {
                    (
                        OpenPhase::RegisteringProcesses,
                        OpenActionView::Ioctl(
                            IoctlRequestView::sending(
                                DriverIoctlCode::RegisterProcesses,
                                registry_bytes(process_tree(items)),
                            ),
                        ),
                    )
                },
            }
        },
        (OpenPhase::RegisteringProcesses, OpenReplyView::Ioctl(Err(error))) => failed(
            DeviceHandleError::RegisterProcessesError(error),
        ),
        (OpenPhase::RegisteringProcesses, OpenReplyView::Ioctl(Ok(_))) => clearing(),
        (OpenPhase::ClearingConfig, OpenReplyView::Ioctl(Err(error))) => failed(
            DeviceHandleError::ClearConfigError(error),
        ),
        (OpenPhase::ClearingConfig, OpenReplyView::Ioctl(Ok(_))) => (
            OpenPhase::Open,
            OpenActionView::Finish(Ok(())),
        ),
        _ => (phase, OpenActionView::Finish(Ok(()))),
    }
}

/// The client's end of the driver's device. Once the device is open, the
/// handle changes no more, and copies of it serve the threads that share
/// the device.
#[derive(Clone, Copy, Debug)]
pub struct DeviceHandle {
    phase: OpenPhase,
}

impl View for DeviceHandle {
    type V = OpenPhase;

    closed spec fn view(&self) -> OpenPhase {
        self.phase
    }
}

impl DeviceHandle {
    /// Begins to open the device. The caller connects to the device and
    /// reports the outcome to `advance`.
    pub fn new() -> (device: DeviceHandle)
        ensures
            device@ == OpenPhase::Connecting,
    {
        DeviceHandle { phase: OpenPhase::Connecting }
    }

    /// How the device is opened: for reading and writing, shared with
    /// nobody, for operations that complete in the background, and with no
    /// attributes.
    pub fn open_options() -> (options: OpenOptions)
        ensures
            options == (OpenOptions {
                read: true,
                write: true,
                share_mode: 0,
                custom_flags: FILE_FLAG_OVERLAPPED,
                attributes: 0,
            }),
    {
        OpenOptions {
            read: true,
            write: true,
            share_mode: 0,
            custom_flags: FILE_FLAG_OVERLAPPED,
            attributes: 0,
        }
    }

    /// How far the opening has come.
    pub fn phase(&self) -> (phase: OpenPhase)
        ensures
            phase == self@,
    {
        self.phase
    }

    /// Whether the device is open.
    pub open spec fn spec_is_open(&self) -> bool {
        self@ == OpenPhase::Open
    }

    /// Whether the device is open.
    #[verifier::when_used_as_spec(spec_is_open)]
    pub fn is_open(&self) -> (open: bool)
        ensures
            open == self.spec_is_open(),
    {
        match self.phase {
            OpenPhase::Open => true,
            _ => false,
        }
    }

    /// Takes the outcome of the work that the opening waited for, and says
    /// what to do next.
    pub fn advance(&mut self, reply: OpenReply) -> (action: OpenAction)
        requires
            expects(old(self)@, reply@),
        ensures
            (final(self)@, action@) == open_step(old(self)@, reply@),
    {
        match reply {
            OpenReply::Connected(outcome) => match outcome {
                Err(error) => self.fail(connect_error(error)),
                Ok(()) => {
                    self.phase = OpenPhase::QueryingBeforeInitialize;
                    OpenAction::Ioctl(self.get_driver_state())
                },
            },
            OpenReply::Processes(outcome) => match outcome {
                Err(error) => self.fail(DeviceHandleError::RegisterProcessesError(error)),
                Ok(snapshot) => match self.register_processes(&snapshot) {
                    Err(error) => self.fail(DeviceHandleError::RegisterProcessesError(error)),
                    Ok(request) => {
                        self.phase = OpenPhase::RegisteringProcesses;
                        OpenAction::Ioctl(request)
                    },
                },
            },
            OpenReply::Ioctl(outcome) => match self.phase {
                OpenPhase::QueryingBeforeInitialize => match outcome {
                    Err(error) => self.fail(DeviceHandleError::GetStateError(error)),
                    Ok(output) => match parse_driver_state(output.unwrap().as_slice()) {
                        Err(error) => self.fail(DeviceHandleError::GetStateError(error)),
                        Ok(DriverState::Started) => {
                            self.phase = OpenPhase::Initializing;
                            OpenAction::Ioctl(self.initialize())
                        },
                        Ok(_) => {
                            self.phase = OpenPhase::QueryingBeforeRegister;
                            OpenAction::Ioctl(self.get_driver_state())
                        },
                    },
                },
                OpenPhase::Initializing => match outcome {
                    Err(error) => self.fail(DeviceHandleError::InitializationError(error)),
                    Ok(_) => {
                        self.phase = OpenPhase::QueryingBeforeRegister;
                        OpenAction::Ioctl(self.get_driver_state())
                    },
                },
                OpenPhase::QueryingBeforeRegister => match outcome {
                    Err(error) => self.fail(DeviceHandleError::GetStateError(error)),
                    Ok(output) => match parse_driver_state(output.unwrap().as_slice()) {
                        Err(error) => self.fail(DeviceHandleError::GetStateError(error)),
                        Ok(DriverState::Initialized) => {
                            self.phase = OpenPhase::ListingProcesses;
                            OpenAction::ListProcesses
                        },
                        Ok(_) => {
                            self.phase = OpenPhase::ClearingConfig;
                            OpenAction::Ioctl(self.clear_config())
                        },
                    },
                },
                OpenPhase::RegisteringProcesses => match outcome {
                    Err(error) => self.fail(DeviceHandleError::RegisterProcessesError(error)),
                    Ok(_) => {
                        self.phase = OpenPhase::ClearingConfig;
                        OpenAction::Ioctl(self.clear_config())
                    },
                },
                _ => match outcome {
                    Err(error) => self.fail(DeviceHandleError::ClearConfigError(error)),
                    Ok(_) => {
                        self.phase = OpenPhase::Open;
                        OpenAction::Finish(Ok(()))
                    },
                },
            },
        }
    }

    /// Ends the opening with `error`.
    fn fail(&mut self, error: DeviceHandleError) -> (action: OpenAction)
        ensures
            (final(self)@, action@) == failed(error),
    {
        self.phase = OpenPhase::Failed;
        OpenAction::Finish(Err(error))
    }

    /// The operation that initializes the driver.
    pub fn initialize(&self) -> (request: IoctlRequest)
        ensures
            request@ == IoctlRequestView::bare(DriverIoctlCode::Initialize),
    {
        IoctlRequest { code: DriverIoctlCode::Initialize, input: None, output_size: 0 }
    }

    /// The operation that registers the processes of a snapshot, as a tree.
    /// Fails as the construction of the tree fails, and for a tree that is
    /// too large to lay out.
    pub fn register_processes(&self, snapshot: &Vec<SnapshotItem>) -> (request: Result<
        IoctlRequest,
        IoError,
    >)
        ensures
            match first_failure(items_of(snapshot@), snapshot@.len() as int) {
                Some(error) => request == Err::<IoctlRequest, IoError>(error),
                None => if registry_size(process_tree(items_of(snapshot@))) > usize::MAX {
                    request == Err::<IoctlRequest, IoError>(IoError::BufferTooLarge)
                } else {
                    request is Ok && request->Ok_0@ == IoctlRequestView::sending(
                        DriverIoctlCode::RegisterProcesses,
                        registry_bytes(process_tree(items_of(snapshot@))),
                    )
                },
            },
    {
        let tree: Vec<ProcessInfo> = match build_process_tree(snapshot) {
            Ok(tree) => tree,
            Err(error) => {
                return Err(error);
            },
        };
        if checked_registry_size(&tree).is_none() {
            return Err(IoError::BufferTooLarge);
        }
        match serialize_process_tree(tree) {
            Ok(buffer) => Ok(
                IoctlRequest {
                    code: DriverIoctlCode::RegisterProcesses,
                    input: Some(buffer),
                    output_size: 0,
                },
            ),
            Err(error) => Err(error),
        }
    }

    /// The operation that registers the addresses to redirect between.
    /// Traffic is configured on an open device only.
    pub fn register_ips(
        &self,
        tunnel_ipv4: Option<Ipv4Address>,
        tunnel_ipv6: Option<Ipv6Address>,
        internet_ipv4: Option<Ipv4Address>,
        internet_ipv6: Option<Ipv6Address>,
    ) -> (request: IoctlRequest)
        requires
            self.spec_is_open(),
        ensures
            request@ == IoctlRequestView::sending(
                DriverIoctlCode::RegisterIpAddresses,
                (InterfaceAddresses {
                    tunnel_ipv4,
                    tunnel_ipv6,
                    internet_ipv4,
                    internet_ipv6,
                }).wire_bytes(),
            ),
    {
        let addresses = InterfaceAddresses {
            tunnel_ipv4,
            tunnel_ipv6,
            internet_ipv4,
            internet_ipv6,
        };
        IoctlRequest {
            code: DriverIoctlCode::RegisterIpAddresses,
            input: Some(addresses.to_bytes()),
            output_size: 0,
        }
    }

    /// The operation that asks for the driver's state. Its output is read
    /// by `parse_driver_state`.
    pub fn get_driver_state(&self) -> (request: IoctlRequest)
        ensures
            request@ == IoctlRequestView::get_state(),
    {
        IoctlRequest { code: DriverIoctlCode::GetState, input: None, output_size: STATE_SIZE }
    }

    /// The operation that makes the driver exclude the applications whose
    /// paths were resolved.
    ///
    /// A path on a volume that is not mounted resolves to "not found" and is
    /// left out. Any other failure to resolve is returned, the first one if
    /// there are several. Where no path is left, the operation is the one
    /// that clears the configuration: the driver is never handed a
    /// configuration without entries. Traffic is configured on an open
    /// device only.
    pub fn set_config(&self, apps: &Vec<Result<Vec<u16>, IoError>>) -> (request: Result<
        IoctlRequest,
        IoError,
    >)
        requires
            self.spec_is_open(),
        ensures
            match config_plan(resolutions_of(apps@)) {
                Err(error) => request == Err::<IoctlRequest, IoError>(error),
                Ok(plan) => request is Ok && request->Ok_0@ == plan,
            },
    {
        let ghost resolved = resolutions_of(apps@);
        let mut device_paths: Vec<Vec<u16>> = Vec::new();
        let mut i: usize = 0;
        proof {
            assert(paths_of(device_paths@) =~= mounted_paths(resolved, 0));
        }
        while i < apps.len()
            invariant
                i <= apps@.len(),
                resolved == resolutions_of(apps@),
                resolution_failure(resolved, i as int) is None,
                paths_of(device_paths@) == mounted_paths(resolved, i as int),
            decreases apps@.len() - i,
        {
            let ghost before = paths_of(device_paths@);
            proof {
                assert(resolved[i as int] == resolution_view(apps@[i as int]));
            }
            match &apps[i] {
                Err(error) => {
                    match error.kind() {
                        IoErrorKind::NotFound => {},
                        _ => {
                            proof {
                                lemma_resolution_failure_stays(resolved, i + 1, apps@.len() as int);
                            }
                            return Err(*error);
                        },
                    }
                },
                Ok(path) => {
                    let copy: Vec<u16> = path.clone();
                    device_paths.push(copy);
                    proof {
                        assert(paths_of(device_paths@) =~= before.push(path@));
                    }
                },
            }
            i += 1;
        }
        if device_paths.is_empty() {
            return Ok(self.clear_config());
        }
        if checked_config_size(&device_paths).is_none() {
            return Err(IoError::BufferTooLarge);
        }
        let config: Vec<u8> = make_process_config(&device_paths);
        Ok(
            IoctlRequest {
                code: DriverIoctlCode::SetConfiguration,
                input: Some(config),
                output_size: 0,
            },
        )
    }

    /// The operation that asks for the next event of the driver, with room
    /// for `capacity` bytes of output. It is left pending until an event is
    /// there; the output is read by `parse_event_buffer`.
    pub fn dequeue_event(&self, capacity: u32) -> (request: IoctlRequest)
        ensures
            request@ == (IoctlRequestView {
                code: DriverIoctlCode::DequeEvent,
                input: None,
                output_size: capacity,
            }),
    {
        IoctlRequest { code: DriverIoctlCode::DequeEvent, input: None, output_size: capacity }
    }

    /// The operation that clears the exclusion configuration.
    pub fn clear_config(&self) -> (request: IoctlRequest)
        ensures
            request@ == IoctlRequestView::bare(DriverIoctlCode::ClearConfiguration),
    {
        IoctlRequest { code: DriverIoctlCode::ClearConfiguration, input: None, output_size: 0 }
    }
}

/// How a path resolved, as a mathematical value.
pub open spec fn resolution_view(resolution: Result<Vec<u16>, IoError>) -> Result<
    Seq<u16>,
    IoError,
> {
    match resolution {
        Ok(path) => Ok(path@),
        Err(error) => Err(error),
    }
}

/// How the paths of a list resolved.
pub open spec fn resolutions_of(apps: Seq<Result<Vec<u16>, IoError>>) -> Seq<
    Result<Seq<u16>, IoError>,
> {
    Seq::new(apps.len(), |i: int| resolution_view(apps[i]))
}

/// The first failure among the first `n` resolutions that is not a
/// "not found".
pub open spec fn resolution_failure(resolved: Seq<Result<Seq<u16>, IoError>>, n: int) -> Option<
    IoError,
>
    decreases n,
{
    if n <= 0 {
        None
    } else {
        match resolution_failure(resolved, n - 1) {
            Some(error) => Some(error),
            None => match resolved[n - 1] {
                Err(error) if error.spec_kind() != IoErrorKind::NotFound => Some(error),
                _ => None,
            },
        }
    }
}

/// The device paths among the first `n` resolutions, in their order.
pub open spec fn mounted_paths(resolved: Seq<Result<Seq<u16>, IoError>>, n: int) -> Seq<Seq<u16>>
    decreases n,
{
    if n <= 0 {
        Seq::empty()
    } else {
        match resolved[n - 1] {
            Ok(path) => mounted_paths(resolved, n - 1).push(path),
            Err(_) => mounted_paths(resolved, n - 1),
        }
    }
}

/// The operation that configures the driver for the applications whose
/// paths resolved as `resolved`, or the failure that forbids it.
pub open spec fn config_plan(resolved: Seq<Result<Seq<u16>, IoError>>) -> Result<
    IoctlRequestView,
    IoError,
> {
    let paths = mounted_paths(resolved, resolved.len() as int);
    match resolution_failure(resolved, resolved.len() as int) {
        Some(error) => Err(error),
        None => if paths.len() == 0 {
            Ok(IoctlRequestView::bare(DriverIoctlCode::ClearConfiguration))
        } else if config_size(paths) > usize::MAX {
            Err(IoError::BufferTooLarge)
        } else {
            Ok(IoctlRequestView::sending(DriverIoctlCode::SetConfiguration, config_bytes(paths)))
        },
    }
}

/// Once a resolution has failed, the first failure stays the same however
/// many more resolutions are looked at.
pub proof fn lemma_resolution_failure_stays(
    resolved: Seq<Result<Seq<u16>, IoError>>,
    m: int,
    n: int,
)
    requires
        0 <= m <= n,
        resolution_failure(resolved, m) is Some,
    ensures
        resolution_failure(resolved, n) == resolution_failure(resolved, m),
    decreases n,
{
    if m < n {
        lemma_resolution_failure_stays(resolved, m, n - 1);
    }
}

/// The driver's state after a piece of work of the opening, by the driver's
/// own rules: initialized once it was told so after its start, ready once it
/// was given the process tree after that, and else as it was.
pub open spec fn driver_after(
    driver: DriverState,
    phase: OpenPhase,
    reply: OpenReplyView,
) -> DriverState {
    match (phase, reply) {
        (OpenPhase::Initializing, OpenReplyView::Ioctl(Ok(_))) => if driver == DriverState::Started {
            DriverState::Initialized
        } else {
            driver
        },
        (OpenPhase::RegisteringProcesses, OpenReplyView::Ioctl(Ok(_))) => if driver
            == DriverState::Initialized {
            DriverState::Ready
        } else {
            driver
        },
        _ => driver,
    }
}

/// Whether `reply` is an answer that a driver in state `driver` gives: where
/// it reports a state, it is that state.
pub open spec fn truthful(driver: DriverState, phase: OpenPhase, reply: OpenReplyView) -> bool {
    match (phase, reply) {
        (
            OpenPhase::QueryingBeforeInitialize | OpenPhase::QueryingBeforeRegister,
            OpenReplyView::Ioctl(Ok(Some(output))),
        ) => spec_parse_driver_state(output) == Ok::<DriverState, IoError>(driver),
        _ => true,
    }
}

/// What an opening in `phase` knows of a driver in state `driver`.
pub open spec fn tracks(phase: OpenPhase, driver: DriverState) -> bool {
    match phase {
        OpenPhase::Connecting | OpenPhase::QueryingBeforeInitialize => driver
            != DriverState::Unstarted,
        OpenPhase::Initializing => driver == DriverState::Started,
        OpenPhase::QueryingBeforeRegister => driver != DriverState::Unstarted && driver
            != DriverState::Started,
        OpenPhase::ListingProcesses | OpenPhase::RegisteringProcesses => driver
            == DriverState::Initialized,
        OpenPhase::ClearingConfig | OpenPhase::Open => driver.spec_is_ready(),
        OpenPhase::Failed => true,
    }
}

/// Whether each of `replies` in turn is expected by the opening and truthful
/// of the driver, from `phase` and `driver` on.
pub open spec fn faithful(phase: OpenPhase, driver: DriverState, replies: Seq<OpenReplyView>) -> bool
    decreases replies.len(),
{
    replies.len() == 0 || {
        &&& expects(phase, replies[0])
        &&& truthful(driver, phase, replies[0])
        &&& faithful(
            open_step(phase, replies[0]).0,
            driver_after(driver, phase, replies[0]),
            replies.skip(1),
        )
    }
}

/// The phase of the opening and the state of the driver after `replies`.
pub open spec fn outcome(phase: OpenPhase, driver: DriverState, replies: Seq<OpenReplyView>) -> (
    OpenPhase,
    DriverState,
)
    decreases replies.len(),
{
    if replies.len() == 0 {
        (phase, driver)
    } else {
        outcome(
            open_step(phase, replies[0]).0,
            driver_after(driver, phase, replies[0]),
            replies.skip(1),
        )
    }
}

/// One step of an opening keeps what the opening knows of the driver.
pub proof fn lemma_open_step_tracks(phase: OpenPhase, driver: DriverState, reply: OpenReplyView)
    requires
        tracks(phase, driver),
        expects(phase, reply),
        truthful(driver, phase, reply),
    ensures
        tracks(open_step(phase, reply).0, driver_after(driver, phase, reply)),
{
}

/// An opening ends in exactly one of two ways: the device is open and the
/// work is finished with success, or the opening has failed and the work is
/// finished with the error.
pub proof fn lemma_open_step_finishes(phase: OpenPhase, reply: OpenReplyView)
    requires
        expects(phase, reply),
    ensures
        open_step(phase, reply).0 == OpenPhase::Open <==> open_step(phase, reply).1
            == OpenActionView::Finish(Ok(())),
        open_step(phase, reply).0 == OpenPhase::Failed <==> (open_step(phase, reply).1 matches OpenActionView::Finish(
            Err(_),
        )),
{
}

/// An opening never leaves a device open with the driver
/// short of `Ready`. Whatever the driver answers truthfully from any state
/// that a loaded driver can be in, the opening fails or goes on, or the
/// device is open and the driver ready.
pub proof fn lemma_open_device_has_ready_driver(
    phase: OpenPhase,
    driver: DriverState,
    replies: Seq<OpenReplyView>,
)
    requires
        tracks(phase, driver),
        faithful(phase, driver, replies),
    ensures
        tracks(outcome(phase, driver, replies).0, outcome(phase, driver, replies).1),
        outcome(phase, driver, replies).0 == OpenPhase::Open ==> outcome(
            phase,
            driver,
            replies,
        ).1.spec_is_ready(),
    decreases replies.len(),
{
    if replies.len() > 0 {
        lemma_open_step_tracks(phase, driver, replies[0]);
        lemma_open_device_has_ready_driver(
            open_step(phase, replies[0]).0,
            driver_after(driver, phase, replies[0]),
            replies.skip(1),
        );
    }
}

} // verus!
