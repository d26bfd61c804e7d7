use split_tunnel::ioctl::{ctl_code, DriverIoctlCode};

#[test]
fn control_codes_follow_the_table() {
    assert_eq!(DriverIoctlCode::Initialize.code(), 0x8000_0007);
    assert_eq!(DriverIoctlCode::DequeEvent.code(), 0x8000_0008);
    assert_eq!(DriverIoctlCode::RegisterProcesses.code(), 0x8000_000C);
    assert_eq!(DriverIoctlCode::RegisterIpAddresses.code(), 0x8000_0010);
    assert_eq!(DriverIoctlCode::GetIpAddresses.code(), 0x8000_0014);
    assert_eq!(DriverIoctlCode::SetConfiguration.code(), 0x8000_0018);
    assert_eq!(DriverIoctlCode::GetConfiguration.code(), 0x8000_001C);
    assert_eq!(DriverIoctlCode::ClearConfiguration.code(), 0x8000_0023);
    assert_eq!(DriverIoctlCode::GetState.code(), 0x8000_0024);
    assert_eq!(DriverIoctlCode::QueryProcess.code(), 0x8000_0028);
}

#[test]
fn ctl_code_packs_its_fields() {
    assert_eq!(ctl_code(0x8000, 1, 3, 0), 0x8000_0007);
    assert_eq!(ctl_code(0x22, 0x801, 0, 2), 0x0022_A004);
}
