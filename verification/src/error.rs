//! What can go wrong, from a failed system call up to the controller's own
//! taxonomy.
use crate::state::UnknownDriverState;
use vstd::prelude::*;

verus! {

/// Broad class of a failed system call, as far as any decision looks at it.
#[derive(Clone, Copy, Debug, PartialEq, Eq, Structural)]
pub enum IoErrorKind {
    /// The named object does not exist.
    NotFound,
    /// The caller lacks the privilege for the operation.
    PermissionDenied,
    /// An argument was not acceptable.
    InvalidInput,
    /// A failure that fits no other class.
    Other,
    /// A class that no decision depends on.
    Uncategorized,
}

/// Failure of a read, a write or a control operation.
#[derive(Clone, Copy, Debug, PartialEq, Eq, Structural)]
pub enum IoError {
    /// Reported by the operating system or by a helper that talks to it.
    System { kind: IoErrorKind, raw_os_error: Option<i32> },
    /// The driver completed a control operation at once, where it must
    /// leave it pending.
    ExpectedPendingOperation,
    /// A wait ended because the owner of the awaited object went away.
    AbandonedMutex,
    /// The driver reported a state that is not known.
    UnknownDriverState(UnknownDriverState),
    /// A message for the driver would be longer than a buffer can be.
    BufferTooLarge,
}

impl IoError {
    /// The class of the failure. What the controller finds itself is `Other`.
    pub open spec fn spec_kind(self) -> IoErrorKind {
        match self {
            IoError::System { kind, .. } => kind,
            _ => IoErrorKind::Other,
        }
    }

    /// The operating system's error code, where the failure carries one.
    pub open spec fn spec_raw_os_error(self) -> Option<i32> {
        match self {
            IoError::System { raw_os_error, .. } => raw_os_error,
            _ => None,
        }
    }

    /// The failure that stands for an operating-system error code. Its class
    /// is left open: nothing decides on it.
    pub open spec fn spec_from_raw_os_error(code: i32) -> IoError {
        IoError::System { kind: IoErrorKind::Uncategorized, raw_os_error: Some(code) }
    }

    /// The class of the failure.
    #[verifier::when_used_as_spec(spec_kind)]
    pub fn kind(self) -> (kind: IoErrorKind)
        ensures
            kind == self.spec_kind(),
    {
        match self {
            IoError::System { kind, .. } => kind,
            _ => IoErrorKind::Other,
        }
    }

    /// The operating system's error code, where the failure carries one.
    #[verifier::when_used_as_spec(spec_raw_os_error)]
    pub fn raw_os_error(self) -> (code: Option<i32>)
        ensures
            code == self.spec_raw_os_error(),
    {
        match self {
            IoError::System { raw_os_error, .. } => raw_os_error,
            _ => None,
        }
    }

    /// The failure that stands for an operating-system error code.
    #[verifier::when_used_as_spec(spec_from_raw_os_error)]
    pub fn from_raw_os_error(code: i32) -> (error: IoError)
        ensures
            error == IoError::spec_from_raw_os_error(code),
    {
        IoError::System { kind: IoErrorKind::Uncategorized, raw_os_error: Some(code) }
    }
}

/// Why the device could not be opened and made ready.
#[derive(Clone, Copy, Debug, PartialEq, Eq, Structural)]
pub enum DeviceHandleError {
    /// Failed to connect because there is no such device.
    ConnectionFailed,
    /// Failed to connect because the connection was denied.
    ConnectionDenied,
    /// Failed to connect to the driver.
    ConnectionError(IoError),
    /// Failed to inquire about the driver's state.
    GetStateError(IoError),
    /// Failed to initialize the driver.
    InitializationError(IoError),
    /// Failed to register the process tree with the driver.
    RegisterProcessesError(IoError),
    /// Failed to clear the configuration in the driver.
    ClearConfigError(IoError),
}

impl DeviceHandleError {
    /// The text that describes the error to a reader.
    pub open spec fn spec_message(self) -> Seq<char> {
        match self {
            DeviceHandleError::ConnectionFailed =>
                "Failed to connect to driver, no such device. The driver is probably not loaded"@,
            DeviceHandleError::ConnectionDenied =>
                "Failed to connect to driver, connection denied. The exclusive connection is probably hogged"@,
            DeviceHandleError::ConnectionError(_) => "Failed to connect to driver"@,
            DeviceHandleError::GetStateError(_) => "Failed to inquire about driver state"@,
            DeviceHandleError::InitializationError(_) => "Failed to initialize driver"@,
            DeviceHandleError::RegisterProcessesError(_) =>
                "Failed to register process tree with driver"@,
            DeviceHandleError::ClearConfigError(_) => "Failed to clear configuration in driver"@,
        }
    }

    /// The failure underneath, where there is one.
    pub open spec fn spec_source(self) -> Option<IoError> {
        match self {
            DeviceHandleError::ConnectionFailed | DeviceHandleError::ConnectionDenied => None,
            DeviceHandleError::ConnectionError(e)
            | DeviceHandleError::GetStateError(e)
            | DeviceHandleError::InitializationError(e)
            | DeviceHandleError::RegisterProcessesError(e)
            | DeviceHandleError::ClearConfigError(e) => Some(e),
        }
    }

    /// The text that describes the error to a reader.
    pub fn message(&self) -> (text: String)
        ensures
            text@ == self.spec_message(),
    {
        match self {
            DeviceHandleError::ConnectionFailed =>
                "Failed to connect to driver, no such device. The driver is probably not loaded".to_string(),
            DeviceHandleError::ConnectionDenied =>
                "Failed to connect to driver, connection denied. The exclusive connection is probably hogged".to_string(),
            DeviceHandleError::ConnectionError(_) => "Failed to connect to driver".to_string(),
            DeviceHandleError::GetStateError(_) => "Failed to inquire about driver state".to_string(),
            DeviceHandleError::InitializationError(_) => "Failed to initialize driver".to_string(),
            DeviceHandleError::RegisterProcessesError(_) =>
                "Failed to register process tree with driver".to_string(),
            DeviceHandleError::ClearConfigError(_) =>
                "Failed to clear configuration in driver".to_string(),
        }
    }

    /// The failure underneath, where there is one.
    #[verifier::when_used_as_spec(spec_source)]
    pub fn source(self) -> (cause: Option<IoError>)
        ensures
            cause == self.spec_source(),
    {
        match self {
            DeviceHandleError::ConnectionFailed | DeviceHandleError::ConnectionDenied => None,
            DeviceHandleError::ConnectionError(e)
            | DeviceHandleError::GetStateError(e)
            | DeviceHandleError::InitializationError(e)
            | DeviceHandleError::RegisterProcessesError(e)
            | DeviceHandleError::ClearConfigError(e) => Some(e),
        }
    }
}

/// Failure of one of the two route helpers.
#[derive(Clone, Copy, Debug, PartialEq, Eq, Structural)]
pub enum WinNetError {
    /// The best default route could not be determined.
    GetDefaultRoute,
    /// No address could be read for an interface.
    GetIpAddressFromLuid,
}

/// Errors that may occur in the split-tunnel controller.
#[derive(Clone, Copy, Debug, PartialEq, Eq, Structural)]
pub enum Error {
    /// Failed to initialize the driver.
    InitializationError(DeviceHandleError),
    /// Failed to set paths to excluded applications.
    SetConfiguration(IoError),
    /// Failed to register interface IP addresses.
    RegisterIps(IoError),
    /// Failed to clear interface IP addresses.
    ClearIps(IoError),
    /// Failed to set up the driver event loop.
    EventThreadError(IoError),
    /// Failed to obtain the default route.
    ObtainDefaultRoute(WinNetError),
    /// Failed to obtain an IP address given a network interface LUID.
    LuidToIp(WinNetError),
    /// Failed to set up the callback for monitoring default route changes.
    RegisterRouteChangeCallback,
    /// Unexpected IP parsing error.
    IpParseError,
    /// The request handling thread is stuck.
    RequestThreadStuck,
    /// The request handling thread is down.
    RequestThreadDown,
    /// Failed to start the NTFS reparse point monitor.
    StartPathMonitor(IoError),
    /// A previous path update has not yet completed.
    AlreadySettingPaths,
}

impl Error {
    /// The text that describes the error to a reader.
    pub open spec fn spec_message(self) -> Seq<char> {
        match self {
            Error::InitializationError(_) => "Failed to initialize driver"@,
            Error::SetConfiguration(_) => "Failed to set list of excluded applications"@,
            Error::RegisterIps(_) => "Failed to register IP addresses for exclusions"@,
            Error::ClearIps(_) => "Failed to clear registered IP addresses"@,
            Error::EventThreadError(_) => "Failed to set up the driver event loop"@,
            Error::ObtainDefaultRoute(_) => "Failed to obtain the default route"@,
            Error::LuidToIp(_) => "Failed to obtain IP address for interface LUID"@,
            Error::RegisterRouteChangeCallback =>
                "Failed to register default route change callback"@,
            Error::IpParseError => "Failed to parse IP address"@,
            Error::RequestThreadStuck => "The ST request thread is stuck"@,
            Error::RequestThreadDown => "The ST request thread is down"@,
            Error::StartPathMonitor(_) => "Failed to start path monitor"@,
            Error::AlreadySettingPaths => "A previous update is not yet complete"@,
        }
    }

    /// The text that describes the error to a reader.
    pub fn message(&self) -> (text: String)
        ensures
            text@ == self.spec_message(),
    {
        match self {
            Error::InitializationError(_) => "Failed to initialize driver".to_string(),
            Error::SetConfiguration(_) => "Failed to set list of excluded applications".to_string(),
            Error::RegisterIps(_) => "Failed to register IP addresses for exclusions".to_string(),
            Error::ClearIps(_) => "Failed to clear registered IP addresses".to_string(),
            Error::EventThreadError(_) => "Failed to set up the driver event loop".to_string(),
            Error::ObtainDefaultRoute(_) => "Failed to obtain the default route".to_string(),
            Error::LuidToIp(_) => "Failed to obtain IP address for interface LUID".to_string(),
            Error::RegisterRouteChangeCallback =>
                "Failed to register default route change callback".to_string(),
            Error::IpParseError => "Failed to parse IP address".to_string(),
            Error::RequestThreadStuck => "The ST request thread is stuck".to_string(),
            Error::RequestThreadDown => "The ST request thread is down".to_string(),
            Error::StartPathMonitor(_) => "Failed to start path monitor".to_string(),
            Error::AlreadySettingPaths => "A previous update is not yet complete".to_string(),
        }
    }
}

} // verus!
