use split_tunnel::addresses::{
    select_tunnel_addresses, InterfaceAddresses, IpAddress, Ipv4Address, Ipv6Address,
    TunnelMetadata, PUBLIC_INTERNET_ADDRESS_V4, RESERVED_IP_V4,
};
use split_tunnel::controller::{
    needs_interface_address, route_registration_done, split_tunnel_default_route_change_handler,
    DefaultRouteProbe, DeviceWait, ErrorStateCause, RouteHandlerAction, SetupAction, SetupEvent,
    SetupPhase, SplitTunnel, SplitTunnelDefaultRouteChangeHandlerContext, StartupAction,
    StartupEvent, TunnelCommand, WinNetAddrFamily, WinNetDefaultRouteChangeEventType,
};
use split_tunnel::error::{DeviceHandleError, Error, IoError, IoErrorKind, WinNetError};
use split_tunnel::requests::{ReplyWait, Request};

fn utf16(text: &str) -> Vec<u16> {
    text.encode_utf16().collect()
}

fn os_error(code: i32) -> IoError {
    IoError::System {
        kind: IoErrorKind::Uncategorized,
        raw_os_error: Some(code),
    }
}

fn v4(a: u8, b: u8, c: u8, d: u8) -> IpAddress {
    IpAddress::V4(Ipv4Address::new(a, b, c, d))
}

fn v6(bits: u128) -> IpAddress {
    IpAddress::V6(Ipv6Address { bits })
}

fn context() -> SplitTunnelDefaultRouteChangeHandlerContext {
    SplitTunnelDefaultRouteChangeHandlerContext::new(
        Some(Ipv4Address::new(10, 64, 0, 2)),
        Some(Ipv6Address { bits: 0xfc00 }),
    )
}

const BLOCK: RouteHandlerAction =
    RouteHandlerAction::Block(TunnelCommand::Block(ErrorStateCause::SplitTunnelError));

#[test]
fn reserved_addresses_have_their_octets() {
    assert_eq!(Ipv4Address::reserved(), Ipv4Address::new(192, 0, 2, 123));
    assert_eq!(Ipv4Address::reserved().bits, RESERVED_IP_V4);
    assert_eq!(
        Ipv4Address::new(193, 138, 218, 78).bits,
        PUBLIC_INTERNET_ADDRESS_V4
    );
    assert_eq!(Ipv4Address::new(1, 2, 3, 4).bits, 0x0102_0304);
}

#[test]
fn first_address_of_each_family_is_the_tunnel_address() {
    let metadata = TunnelMetadata {
        ips: vec![
            v6(0xfc00_0001),
            v4(10, 64, 0, 2),
            v4(10, 64, 0, 3),
            v6(0xfc00_0002),
        ],
    };
    assert_eq!(
        select_tunnel_addresses(Some(&metadata)),
        (
            Some(Ipv4Address::new(10, 64, 0, 2)),
            Some(Ipv6Address { bits: 0xfc00_0001 })
        )
    );
}

#[test]
fn tunnel_without_ipv4_gets_the_reserved_address() {
    let metadata = TunnelMetadata {
        ips: vec![v6(0xfc00_0001)],
    };
    assert_eq!(
        select_tunnel_addresses(Some(&metadata)),
        (
            Some(Ipv4Address::new(192, 0, 2, 123)),
            Some(Ipv6Address { bits: 0xfc00_0001 })
        )
    );
    let empty = TunnelMetadata { ips: Vec::new() };
    assert_eq!(
        select_tunnel_addresses(Some(&empty)),
        (Some(Ipv4Address::new(192, 0, 2, 123)), None)
    );
    assert_eq!(
        select_tunnel_addresses(None),
        (Some(Ipv4Address::new(192, 0, 2, 123)), None)
    );
}

#[test]
fn new_context_knows_no_internet_address() {
    assert_eq!(
        context().addresses,
        InterfaceAddresses {
            tunnel_ipv4: Some(Ipv4Address::new(10, 64, 0, 2)),
            tunnel_ipv6: Some(Ipv6Address { bits: 0xfc00 }),
            internet_ipv4: None,
            internet_ipv6: None,
        }
    );
    assert_eq!(
        context().register_ips(),
        Request::RegisterIps(context().addresses)
    );
}

#[test]
fn probes_give_the_internet_addresses() {
    let mut context = context();
    assert_eq!(
        context.initialize_internet_addresses(
            DefaultRouteProbe::Address(v4(192, 168, 1, 10)),
            DefaultRouteProbe::Address(v6(0x2001))
        ),
        Ok(())
    );
    assert_eq!(
        context.addresses.internet_ipv4,
        Some(Ipv4Address::new(192, 168, 1, 10))
    );
    assert_eq!(
        context.addresses.internet_ipv6,
        Some(Ipv6Address { bits: 0x2001 })
    );
    assert_eq!(
        context.initialize_internet_addresses(
            DefaultRouteProbe::NoAddress,
            DefaultRouteProbe::NoRoute
        ),
        Ok(())
    );
    assert_eq!(context.addresses.internet_ipv4, None);
    assert_eq!(context.addresses.internet_ipv6, None);
    assert_eq!(
        context.addresses.tunnel_ipv4,
        Some(Ipv4Address::new(10, 64, 0, 2))
    );
}

#[test]
fn failed_probes_change_nothing() {
    let cases = [
        (
            DefaultRouteProbe::RouteFailed(WinNetError::GetDefaultRoute),
            DefaultRouteProbe::Address(v6(1)),
            Error::ObtainDefaultRoute(WinNetError::GetDefaultRoute),
        ),
        (
            DefaultRouteProbe::AddressFailed(WinNetError::GetIpAddressFromLuid),
            DefaultRouteProbe::RouteFailed(WinNetError::GetDefaultRoute),
            Error::LuidToIp(WinNetError::GetIpAddressFromLuid),
        ),
        (
            DefaultRouteProbe::Address(v4(1, 1, 1, 1)),
            DefaultRouteProbe::RouteFailed(WinNetError::GetDefaultRoute),
            Error::ObtainDefaultRoute(WinNetError::GetDefaultRoute),
        ),
        (
            DefaultRouteProbe::Address(v4(1, 1, 1, 1)),
            DefaultRouteProbe::AddressFailed(WinNetError::GetIpAddressFromLuid),
            Error::LuidToIp(WinNetError::GetIpAddressFromLuid),
        ),
        (
            DefaultRouteProbe::Address(v6(1)),
            DefaultRouteProbe::Address(v6(2)),
            Error::IpParseError,
        ),
    ];
    for (ipv4, ipv6, error) in cases {
        let mut probed = context();
        assert_eq!(probed.initialize_internet_addresses(ipv4, ipv6), Err(error));
        assert_eq!(probed, context());
    }
}

#[test]
fn wrong_family_under_the_ipv6_probe_keeps_the_ipv4_address() {
    let mut probed = context();
    assert_eq!(
        probed.initialize_internet_addresses(
            DefaultRouteProbe::Address(v4(1, 1, 1, 1)),
            DefaultRouteProbe::Address(v4(2, 2, 2, 2))
        ),
        Err(Error::IpParseError)
    );
    assert_eq!(
        probed.addresses,
        InterfaceAddresses {
            internet_ipv4: Some(Ipv4Address::new(1, 1, 1, 1)),
            ..context().addresses
        }
    );
}

#[test]
fn probe_addresses() {
    assert_eq!(DefaultRouteProbe::NoRoute.address(), Ok(None));
    assert_eq!(DefaultRouteProbe::NoAddress.address(), Ok(None));
    assert_eq!(
        DefaultRouteProbe::Address(v4(1, 2, 3, 4)).address(),
        Ok(Some(v4(1, 2, 3, 4)))
    );
}

#[test]
fn changed_route_gives_the_internet_address() {
    for event_type in [
        WinNetDefaultRouteChangeEventType::DefaultRouteChanged,
        WinNetDefaultRouteChangeEventType::DefaultRouteUpdatedDetails,
    ] {
        let mut changed = context();
        let action = split_tunnel_default_route_change_handler(
            &mut changed,
            event_type,
            WinNetAddrFamily::IPV4,
            Ok(Some(v4(192, 168, 1, 10))),
        );
        let expected = InterfaceAddresses {
            internet_ipv4: Some(Ipv4Address::new(192, 168, 1, 10)),
            ..context().addresses
        };
        assert_eq!(changed.addresses, expected);
        assert_eq!(action, RouteHandlerAction::RegisterIps(expected));
    }
}

#[test]
fn found_address_decides_the_family() {
    let mut changed = context();
    let action = split_tunnel_default_route_change_handler(
        &mut changed,
        WinNetDefaultRouteChangeEventType::DefaultRouteChanged,
        WinNetAddrFamily::IPV4,
        Ok(Some(v6(0x2001))),
    );
    let expected = InterfaceAddresses {
        internet_ipv6: Some(Ipv6Address { bits: 0x2001 }),
        ..context().addresses
    };
    assert_eq!(changed.addresses, expected);
    assert_eq!(action, RouteHandlerAction::RegisterIps(expected));
}

#[test]
fn interface_without_address_clears_the_family() {
    let mut changed = context();
    changed
        .initialize_internet_addresses(
            DefaultRouteProbe::Address(v4(1, 1, 1, 1)),
            DefaultRouteProbe::Address(v6(9)),
        )
        .unwrap();
    let action = split_tunnel_default_route_change_handler(
        &mut changed,
        WinNetDefaultRouteChangeEventType::DefaultRouteChanged,
        WinNetAddrFamily::IPV6,
        Ok(None),
    );
    assert_eq!(changed.addresses.internet_ipv6, None);
    assert_eq!(
        changed.addresses.internet_ipv4,
        Some(Ipv4Address::new(1, 1, 1, 1))
    );
    assert_eq!(action, RouteHandlerAction::RegisterIps(changed.addresses));
}

#[test]
fn removed_route_clears_the_family() {
    let mut changed = context();
    changed
        .initialize_internet_addresses(
            DefaultRouteProbe::Address(v4(1, 1, 1, 1)),
            DefaultRouteProbe::Address(v6(9)),
        )
        .unwrap();
    let action = split_tunnel_default_route_change_handler(
        &mut changed,
        WinNetDefaultRouteChangeEventType::DefaultRouteRemoved,
        WinNetAddrFamily::IPV4,
        Err(WinNetError::GetIpAddressFromLuid),
    );
    assert_eq!(changed.addresses.internet_ipv4, None);
    assert_eq!(changed.addresses.internet_ipv6, Some(Ipv6Address { bits: 9 }));
    assert_eq!(action, RouteHandlerAction::RegisterIps(changed.addresses));
}

#[test]
fn failed_lookup_blocks_and_changes_nothing() {
    let mut changed = context();
    let action = split_tunnel_default_route_change_handler(
        &mut changed,
        WinNetDefaultRouteChangeEventType::DefaultRouteChanged,
        WinNetAddrFamily::IPV4,
        Err(WinNetError::GetIpAddressFromLuid),
    );
    assert_eq!(action, BLOCK);
    assert_eq!(changed, context());
}

#[test]
fn failed_registration_blocks() {
    assert_eq!(route_registration_done(Ok(())), None);
    assert_eq!(
        route_registration_done(Err(Error::RequestThreadStuck)),
        Some(TunnelCommand::Block(ErrorStateCause::SplitTunnelError))
    );
    assert_eq!(
        route_registration_done(Err(Error::RegisterIps(os_error(1)))),
        Some(TunnelCommand::Block(ErrorStateCause::SplitTunnelError))
    );
}

#[test]
fn removed_route_needs_no_lookup() {
    assert!(needs_interface_address(
        WinNetDefaultRouteChangeEventType::DefaultRouteChanged
    ));
    assert!(needs_interface_address(
        WinNetDefaultRouteChangeEventType::DefaultRouteUpdatedDetails
    ));
    assert!(!needs_interface_address(
        WinNetDefaultRouteChangeEventType::DefaultRouteRemoved
    ));
}

#[test]
fn start_goes_step_by_step() {
    assert_eq!(
        SplitTunnel::start(StartupEvent::PathMonitorStarted(Ok(()))),
        StartupAction::SpawnRequestThread
    );
    assert_eq!(
        SplitTunnel::start(StartupEvent::DeviceOpened(DeviceWait::Received(Ok(())))),
        StartupAction::CreateEventObject
    );
    assert_eq!(
        SplitTunnel::start(StartupEvent::EventObjectCreated(Ok(()))),
        StartupAction::SpawnEventThread
    );
}

#[test]
fn start_fails_with_the_error_of_the_step() {
    assert_eq!(
        SplitTunnel::start(StartupEvent::PathMonitorStarted(Err(os_error(3)))),
        StartupAction::Fail(Error::StartPathMonitor(os_error(3)))
    );
    assert_eq!(
        SplitTunnel::start(StartupEvent::DeviceOpened(DeviceWait::Received(Err(
            DeviceHandleError::ConnectionFailed
        )))),
        StartupAction::Fail(Error::InitializationError(
            DeviceHandleError::ConnectionFailed
        ))
    );
    assert_eq!(
        SplitTunnel::start(StartupEvent::DeviceOpened(DeviceWait::TimedOut)),
        StartupAction::Fail(Error::RequestThreadStuck)
    );
    assert_eq!(
        SplitTunnel::start(StartupEvent::DeviceOpened(DeviceWait::Disconnected)),
        StartupAction::Fail(Error::RequestThreadStuck)
    );
    assert_eq!(
        SplitTunnel::start(StartupEvent::EventObjectCreated(Err(os_error(8)))),
        StartupAction::Fail(Error::EventThreadError(os_error(8)))
    );
}

#[test]
fn synchronous_update_makes_a_request() {
    let controller = SplitTunnel::new();
    let paths = vec![utf16("C:\\a.exe"), utf16("C:\\b.exe")];
    assert_eq!(
        controller.set_paths_sync(&paths),
        Request::SetPaths(paths.clone())
    );
}

#[test]
fn concurrent_async_set_refuses_the_second() {
    let mut controller = SplitTunnel::new();
    let first = vec![utf16("C:\\a.exe")];
    let second = vec![utf16("C:\\b.exe")];
    assert_eq!(
        controller.set_paths(&first),
        Ok(Request::SetPaths(first.clone()))
    );
    assert_eq!(
        controller.set_paths(&second),
        Err(Error::AlreadySettingPaths)
    );
    assert_eq!(
        controller.set_paths(&second),
        Err(Error::AlreadySettingPaths)
    );
    assert_eq!(
        controller.path_update_done(true, ReplyWait::Received(Ok(()))),
        Ok(())
    );
    assert_eq!(
        controller.set_paths(&second),
        Ok(Request::SetPaths(second.clone()))
    );
}

#[test]
fn async_update_ends_with_the_reply_or_a_dead_thread() {
    let mut controller = SplitTunnel::new();
    let paths = vec![utf16("a")];
    controller.set_paths(&paths).unwrap();
    assert_eq!(
        controller.path_update_done(false, ReplyWait::Disconnected),
        Err(Error::RequestThreadDown)
    );
    controller.set_paths(&paths).unwrap();
    assert_eq!(
        controller.path_update_done(true, ReplyWait::Disconnected),
        Err(Error::RequestThreadDown)
    );
    controller.set_paths(&paths).unwrap();
    assert_eq!(
        controller.path_update_done(
            true,
            ReplyWait::Received(Err(Error::SetConfiguration(os_error(5))))
        ),
        Err(Error::SetConfiguration(os_error(5)))
    );
    assert!(controller.set_paths(&paths).is_ok());
}

fn begin(controller: &mut SplitTunnel) -> SplitTunnelDefaultRouteChangeHandlerContext {
    let metadata = TunnelMetadata {
        ips: vec![v4(10, 64, 0, 2)],
    };
    let (context, action) = controller.set_tunnel_addresses(Some(&metadata));
    assert_eq!(action, SetupAction::ReplaceCallback);
    assert_eq!(controller.setup_phase(), SetupPhase::RegisteringCallback);
    assert!(!controller.has_route_callback());
    context
}

#[test]
fn tunnel_addresses_are_set_step_by_step() {
    let mut controller = SplitTunnel::new();
    let mut context = begin(&mut controller);
    assert_eq!(
        context.addresses,
        InterfaceAddresses {
            tunnel_ipv4: Some(Ipv4Address::new(10, 64, 0, 2)),
            tunnel_ipv6: None,
            internet_ipv4: None,
            internet_ipv6: None,
        }
    );
    assert_eq!(
        controller.tunnel_addresses_step(&mut context, SetupEvent::CallbackRegistered(true)),
        SetupAction::Probe(WinNetAddrFamily::IPV4)
    );
    let ipv4 = DefaultRouteProbe::Address(v4(192, 168, 1, 10));
    assert_eq!(
        controller.tunnel_addresses_step(&mut context, SetupEvent::Probed(ipv4)),
        SetupAction::Probe(WinNetAddrFamily::IPV6)
    );
    assert_eq!(controller.setup_phase(), SetupPhase::ProbingIpv6(ipv4));
    let expected = InterfaceAddresses {
        tunnel_ipv4: Some(Ipv4Address::new(10, 64, 0, 2)),
        tunnel_ipv6: None,
        internet_ipv4: Some(Ipv4Address::new(192, 168, 1, 10)),
        internet_ipv6: None,
    };
    assert_eq!(
        controller.tunnel_addresses_step(
            &mut context,
            SetupEvent::Probed(DefaultRouteProbe::NoRoute)
        ),
        SetupAction::Send(Request::RegisterIps(expected))
    );
    assert_eq!(context.addresses, expected);
    assert!(!controller.has_route_callback());
    assert_eq!(
        controller.tunnel_addresses_step(&mut context, SetupEvent::Registered(Ok(()))),
        SetupAction::Done(Ok(()))
    );
    assert!(controller.has_route_callback());
    assert_eq!(controller.setup_phase(), SetupPhase::Idle);
}

#[test]
fn new_tunnel_drops_the_old_callback_first() {
    let mut controller = SplitTunnel::new();
    let mut context = begin(&mut controller);
    controller.tunnel_addresses_step(&mut context, SetupEvent::CallbackRegistered(true));
    controller.tunnel_addresses_step(
        &mut context,
        SetupEvent::Probed(DefaultRouteProbe::NoRoute),
    );
    controller.tunnel_addresses_step(
        &mut context,
        SetupEvent::Probed(DefaultRouteProbe::NoRoute),
    );
    controller.tunnel_addresses_step(&mut context, SetupEvent::Registered(Ok(())));
    assert!(controller.has_route_callback());

    let (_, action) = controller.set_tunnel_addresses(None);
    assert_eq!(action, SetupAction::ReplaceCallback);
    assert!(!controller.has_route_callback());
}

#[test]
fn callback_that_cannot_be_registered_is_an_error() {
    let mut controller = SplitTunnel::new();
    let mut context = begin(&mut controller);
    assert_eq!(
        controller.tunnel_addresses_step(&mut context, SetupEvent::CallbackRegistered(false)),
        SetupAction::Done(Err(Error::RegisterRouteChangeCallback))
    );
    assert!(!controller.has_route_callback());
    assert_eq!(controller.setup_phase(), SetupPhase::Idle);
}

#[test]
fn failed_probe_ends_the_setting() {
    let mut controller = SplitTunnel::new();
    let mut context = begin(&mut controller);
    controller.tunnel_addresses_step(&mut context, SetupEvent::CallbackRegistered(true));
    assert_eq!(
        controller.tunnel_addresses_step(
            &mut context,
            SetupEvent::Probed(DefaultRouteProbe::RouteFailed(WinNetError::GetDefaultRoute))
        ),
        SetupAction::Done(Err(Error::ObtainDefaultRoute(WinNetError::GetDefaultRoute)))
    );
    assert_eq!(controller.setup_phase(), SetupPhase::Idle);
    assert!(!controller.has_route_callback());

    let mut context = begin(&mut controller);
    controller.tunnel_addresses_step(&mut context, SetupEvent::CallbackRegistered(true));
    controller.tunnel_addresses_step(
        &mut context,
        SetupEvent::Probed(DefaultRouteProbe::Address(v4(1, 1, 1, 1))),
    );
    assert_eq!(
        controller.tunnel_addresses_step(
            &mut context,
            SetupEvent::Probed(DefaultRouteProbe::AddressFailed(
                WinNetError::GetIpAddressFromLuid
            ))
        ),
        SetupAction::Done(Err(Error::LuidToIp(WinNetError::GetIpAddressFromLuid)))
    );
    assert_eq!(context.addresses.internet_ipv4, None);
    assert!(!controller.has_route_callback());
}

#[test]
fn failed_registration_ends_the_setting_without_a_callback() {
    let mut controller = SplitTunnel::new();
    let mut context = begin(&mut controller);
    controller.tunnel_addresses_step(&mut context, SetupEvent::CallbackRegistered(true));
    controller.tunnel_addresses_step(
        &mut context,
        SetupEvent::Probed(DefaultRouteProbe::NoAddress),
    );
    controller.tunnel_addresses_step(
        &mut context,
        SetupEvent::Probed(DefaultRouteProbe::NoRoute),
    );
    assert_eq!(
        controller.tunnel_addresses_step(
            &mut context,
            SetupEvent::Registered(Err(Error::RequestThreadStuck))
        ),
        SetupAction::Done(Err(Error::RequestThreadStuck))
    );
    assert!(!controller.has_route_callback());
    assert_eq!(controller.setup_phase(), SetupPhase::Idle);
}

#[test]
fn clearing_tunnel_addresses_registers_none() {
    let mut controller = SplitTunnel::new();
    let mut context = begin(&mut controller);
    controller.tunnel_addresses_step(&mut context, SetupEvent::CallbackRegistered(true));
    controller.tunnel_addresses_step(
        &mut context,
        SetupEvent::Probed(DefaultRouteProbe::NoRoute),
    );
    controller.tunnel_addresses_step(
        &mut context,
        SetupEvent::Probed(DefaultRouteProbe::NoRoute),
    );
    controller.tunnel_addresses_step(&mut context, SetupEvent::Registered(Ok(())));
    assert!(controller.has_route_callback());
    assert_eq!(
        controller.clear_tunnel_addresses(),
        Request::RegisterIps(InterfaceAddresses::default())
    );
    assert!(!controller.has_route_callback());
}

#[test]
fn shutdown_tells_the_event_thread_once_and_clears_the_paths() {
    let mut controller = SplitTunnel::new();
    assert_eq!(
        controller.shutdown(),
        (true, Request::SetPaths(Vec::new()))
    );
    assert_eq!(
        controller.shutdown(),
        (false, Request::SetPaths(Vec::new()))
    );
}

#[test]
fn errors_have_their_messages() {
    let io = os_error(1);
    let cases = [
        (
            Error::InitializationError(DeviceHandleError::ConnectionFailed),
            "Failed to initialize driver",
        ),
        (
            Error::SetConfiguration(io),
            "Failed to set list of excluded applications",
        ),
        (
            Error::RegisterIps(io),
            "Failed to register IP addresses for exclusions",
        ),
        (Error::ClearIps(io), "Failed to clear registered IP addresses"),
        (
            Error::EventThreadError(io),
            "Failed to set up the driver event loop",
        ),
        (
            Error::ObtainDefaultRoute(WinNetError::GetDefaultRoute),
            "Failed to obtain the default route",
        ),
        (
            Error::LuidToIp(WinNetError::GetIpAddressFromLuid),
            "Failed to obtain IP address for interface LUID",
        ),
        (
            Error::RegisterRouteChangeCallback,
            "Failed to register default route change callback",
        ),
        (Error::IpParseError, "Failed to parse IP address"),
        (Error::RequestThreadStuck, "The ST request thread is stuck"),
        (Error::RequestThreadDown, "The ST request thread is down"),
        (Error::StartPathMonitor(io), "Failed to start path monitor"),
        (
            Error::AlreadySettingPaths,
            "A previous update is not yet complete",
        ),
    ];
    for (error, message) in cases {
        assert_eq!(error.message(), message);
    }
}
