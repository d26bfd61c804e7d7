//! Control codes of the split-tunnel driver.
use vstd::prelude::*;

verus! {

/// Device type under which the driver registers its control codes.
pub const ST_DEVICE_TYPE: u32 = 0x8000;

/// Transfer method: the I/O manager copies input and output buffers.
pub const METHOD_BUFFERED: u32 = 0;

/// Transfer method: no buffer is handed over.
pub const METHOD_NEITHER: u32 = 3;

/// Required access: none.
pub const FILE_ANY_ACCESS: u32 = 0;

/// The control code made of its four fields.
pub open spec fn spec_ctl_code(device_type: u32, function: u32, method: u32, access: u32) -> u32 {
    device_type << 16 | access << 14 | function << 2 | method
}

/// Packs a device type, a required access, a function number and a transfer
/// method into one control code.
#[verifier::when_used_as_spec(spec_ctl_code)]
pub fn ctl_code(device_type: u32, function: u32, method: u32, access: u32) -> (code: u32)
    ensures
        code == spec_ctl_code(device_type, function, method, access),
{
    device_type << 16 | access << 14 | function << 2 | method
}

/// The operations that the driver offers.
#[derive(Clone, Copy, Debug, PartialEq, Eq, Structural)]
pub enum DriverIoctlCode {
    Initialize,
    DequeEvent,
    RegisterProcesses,
    RegisterIpAddresses,
    GetIpAddresses,
    SetConfiguration,
    GetConfiguration,
    ClearConfiguration,
    GetState,
    QueryProcess,
}

impl DriverIoctlCode {
    /// Function number of the operation, counted from one in the order of
    /// declaration.
    pub open spec fn spec_function(self) -> u32 {
        match self {
            DriverIoctlCode::Initialize => 1,
            DriverIoctlCode::DequeEvent => 2,
            DriverIoctlCode::RegisterProcesses => 3,
            DriverIoctlCode::RegisterIpAddresses => 4,
            DriverIoctlCode::GetIpAddresses => 5,
            DriverIoctlCode::SetConfiguration => 6,
            DriverIoctlCode::GetConfiguration => 7,
            DriverIoctlCode::ClearConfiguration => 8,
            DriverIoctlCode::GetState => 9,
            DriverIoctlCode::QueryProcess => 10,
        }
    }

    /// Transfer method of the operation: none for the two that carry no
    /// data, buffered for the rest.
    pub open spec fn spec_method(self) -> u32 {
        match self {
            DriverIoctlCode::Initialize | DriverIoctlCode::ClearConfiguration => METHOD_NEITHER,
            _ => METHOD_BUFFERED,
        }
    }

    /// The control code as a number: `0x8000_0000 + 4 * function + method`.
    pub open spec fn spec_code(self) -> u32 {
        (0x8000_0000 + 4 * self.spec_function() + self.spec_method()) as u32
    }

    /// Function number of the operation.
    #[verifier::when_used_as_spec(spec_function)]
    pub fn function(self) -> (function: u32)
        ensures
            function == self.spec_function(),
            1 <= function <= 10,
    {
        match self {
            DriverIoctlCode::Initialize => 1,
            DriverIoctlCode::DequeEvent => 2,
            DriverIoctlCode::RegisterProcesses => 3,
            DriverIoctlCode::RegisterIpAddresses => 4,
            DriverIoctlCode::GetIpAddresses => 5,
            DriverIoctlCode::SetConfiguration => 6,
            DriverIoctlCode::GetConfiguration => 7,
            DriverIoctlCode::ClearConfiguration => 8,
            DriverIoctlCode::GetState => 9,
            DriverIoctlCode::QueryProcess => 10,
        }
    }

    /// Transfer method of the operation.
    #[verifier::when_used_as_spec(spec_method)]
    pub fn method(self) -> (method: u32)
        ensures
            method == self.spec_method(),
    {
        match self {
            DriverIoctlCode::Initialize | DriverIoctlCode::ClearConfiguration => METHOD_NEITHER,
            _ => METHOD_BUFFERED,
        }
    }

    /// The control code to hand to the device.
    #[verifier::when_used_as_spec(spec_code)]
    pub fn code(self) -> (code: u32)
        ensures
            code == self.spec_code(),
            code == spec_ctl_code(
                ST_DEVICE_TYPE,
                self.spec_function(),
                self.spec_method(),
                FILE_ANY_ACCESS,
            ),
    {
        let function: u32 = self.function();
        let method: u32 = self.method();
        assert(1 <= function <= 10 && (method == 0 || method == 3) ==> (0x8000u32 << 16 | 0u32 << 14
            | function << 2 | method) == 0x8000_0000 + 4 * function + method) by (bit_vector);
        ctl_code(ST_DEVICE_TYPE, function, method, FILE_ANY_ACCESS)
    }
}

} // verus!
