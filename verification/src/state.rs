//! The states that the driver reports of itself.
use crate::text::{append_decimal, decimal_text};
use vstd::prelude::*;

verus! {

/// State of the driver, in the order in which it passes through them.
#[derive(Clone, Copy, Debug, PartialEq, Eq, Structural)]
pub enum DriverState {
    /// Default state after being loaded.
    Unstarted,
    /// The driver entry point has completed. Only the driver and device
    /// objects exist.
    Started,
    /// All subsystems are initialized.
    Initialized,
    /// User mode has registered all processes in the system.
    Ready,
    /// IP addresses and a valid configuration are registered.
    Engaged,
    /// Driver is unloading.
    Terminating,
}

/// A state code that names no state.
#[derive(Clone, Copy, Debug, PartialEq, Eq, Structural)]
pub struct UnknownDriverState(pub u64);

impl UnknownDriverState {
    /// The text that describes the error to a reader.
    pub open spec fn spec_message(self) -> Seq<char> {
        "Unknown driver state: "@ + decimal_text(self.0 as nat)
    }

    /// The text that describes the error to a reader.
    pub fn message(&self) -> (text: String)
        ensures
            text@ == self.spec_message(),
    {
        let mut text: String = "Unknown driver state: ".to_string();
        append_decimal(&mut text, self.0);
        text
    }
}

impl DriverState {
    /// The number by which the driver reports the state.
    pub open spec fn spec_code(self) -> u64 {
        match self {
            DriverState::Unstarted => 0,
            DriverState::Started => 1,
            DriverState::Initialized => 2,
            DriverState::Ready => 3,
            DriverState::Engaged => 4,
            DriverState::Terminating => 5,
        }
    }

    /// The state that a number stands for.
    pub open spec fn from_code(code: u64) -> Result<DriverState, UnknownDriverState> {
        if code == 0 {
            Ok(DriverState::Unstarted)
        } else if code == 1 {
            Ok(DriverState::Started)
        } else if code == 2 {
            Ok(DriverState::Initialized)
        } else if code == 3 {
            Ok(DriverState::Ready)
        } else if code == 4 {
            Ok(DriverState::Engaged)
        } else if code == 5 {
            Ok(DriverState::Terminating)
        } else {
            Err(UnknownDriverState(code))
        }
    }

    /// Whether traffic may be configured: the driver is `Ready` or further.
    pub open spec fn spec_is_ready(self) -> bool {
        self.spec_code() >= DriverState::Ready.spec_code()
    }

    /// The number by which the driver reports the state.
    #[verifier::when_used_as_spec(spec_code)]
    pub fn code(self) -> (code: u64)
        ensures
            code == self.spec_code(),
            DriverState::from_code(code) == Ok::<DriverState, UnknownDriverState>(self),
    {
        match self {
            DriverState::Unstarted => 0,
            DriverState::Started => 1,
            DriverState::Initialized => 2,
            DriverState::Ready => 3,
            DriverState::Engaged => 4,
            DriverState::Terminating => 5,
        }
    }

    /// Whether traffic may be configured: the driver is `Ready` or further.
    #[verifier::when_used_as_spec(spec_is_ready)]
    pub fn is_ready(self) -> (ready: bool)
        ensures
            ready == self.spec_is_ready(),
            ready == !(self == DriverState::Unstarted || self == DriverState::Started || self
                == DriverState::Initialized),
    {
        self.code() >= 3
    }
}

impl TryFrom<u64> for DriverState {
    type Error = UnknownDriverState;

    fn try_from(state: u64) -> (decoded: Result<Self, Self::Error>) {
        if state == 0 {
            Ok(DriverState::Unstarted)
        } else if state == 1 {
            Ok(DriverState::Started)
        } else if state == 2 {
            Ok(DriverState::Initialized)
        } else if state == 3 {
            Ok(DriverState::Ready)
        } else if state == 4 {
            Ok(DriverState::Engaged)
        } else if state == 5 {
            Ok(DriverState::Terminating)
        } else {
            Err(UnknownDriverState(state))
        }
    }
}

impl vstd::std_specs::convert::TryFromSpecImpl<u64> for DriverState {
    open spec fn obeys_try_from_spec() -> bool {
        true
    }

    open spec fn try_from_spec(state: u64) -> Result<Self, Self::Error> {
        DriverState::from_code(state)
    }
}

} // verus!
