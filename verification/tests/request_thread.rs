use split_tunnel::addresses::{InterfaceAddresses, Ipv4Address, Ipv6Address, TunnelMetadata, IpAddress};
use split_tunnel::config::make_process_config;
use split_tunnel::controller::{
    split_tunnel_default_route_change_handler, DefaultRouteProbe, RouteHandlerAction, SetupAction,
    SetupEvent, SplitTunnel, WinNetAddrFamily, WinNetDefaultRouteChangeEventType,
};
use split_tunnel::device::{DeviceHandle, IoctlRequest, OpenAction, OpenReply};
use split_tunnel::error::{Error, IoError, IoErrorKind};
use split_tunnel::ioctl::DriverIoctlCode;
use split_tunnel::requests::{
    send_request_inner, should_reresolve, ReplyWait, Request, RequestThread, ServerAction,
    ServerEvent, ServerPhase, REQUEST_TIMEOUT_SECS,
};

fn utf16(text: &str) -> Vec<u16> {
    text.encode_utf16().collect()
}

fn os_error(code: i32) -> IoError {
    IoError::System {
        kind: IoErrorKind::Uncategorized,
        raw_os_error: Some(code),
    }
}

fn not_found() -> IoError {
    IoError::System {
        kind: IoErrorKind::NotFound,
        raw_os_error: Some(2),
    }
}

fn open_device() -> DeviceHandle {
    let ready = || OpenReply::Ioctl(Ok(Some(3u64.to_le_bytes().to_vec())));
    let mut device = DeviceHandle::new();
    device.advance(OpenReply::Connected(Ok(())));
    device.advance(ready());
    device.advance(ready());
    assert_eq!(
        device.advance(OpenReply::Ioctl(Ok(None))),
        OpenAction::Finish(Ok(()))
    );
    device
}

fn thread() -> RequestThread {
    RequestThread::new(open_device())
}

fn clear_configuration() -> ServerAction {
    ServerAction::Ioctl {
        request: IoctlRequest {
            code: DriverIoctlCode::ClearConfiguration,
            input: None,
            output_size: 0,
        },
        dump_routes: false,
    }
}

fn set_configuration(paths: &[&str]) -> ServerAction {
    ServerAction::Ioctl {
        request: IoctlRequest {
            code: DriverIoctlCode::SetConfiguration,
            input: Some(make_process_config(
                &paths.iter().map(|path| utf16(path)).collect(),
            )),
            output_size: 0,
        },
        dump_routes: false,
    }
}

fn register(addresses: InterfaceAddresses, dump_routes: bool) -> ServerAction {
    ServerAction::Ioctl {
        request: IoctlRequest {
            code: DriverIoctlCode::RegisterIpAddresses,
            input: Some(addresses.to_bytes()),
            output_size: 0,
        },
        dump_routes,
    }
}

fn addresses(
    tunnel_ipv4: Option<[u8; 4]>,
    internet_ipv4: Option<[u8; 4]>,
) -> InterfaceAddresses {
    let ip = |o: [u8; 4]| Ipv4Address::new(o[0], o[1], o[2], o[3]);
    InterfaceAddresses {
        tunnel_ipv4: tunnel_ipv4.map(ip),
        tunnel_ipv6: None,
        internet_ipv4: internet_ipv4.map(ip),
        internet_ipv6: None,
    }
}

/// Serves a request to set paths to its end, resolving each path to itself.
fn set_paths(
    thread: &mut RequestThread,
    monitored: &mut Vec<Vec<u16>>,
    paths: &[&str],
) -> (Vec<ServerAction>, Result<(), Error>) {
    let mut actions = Vec::new();
    let request = Request::SetPaths(paths.iter().map(|path| utf16(path)).collect());
    let mut action = thread.handle(monitored, ServerEvent::Request(request));
    loop {
        let event = match &action {
            ServerAction::ResolvePaths => {
                ServerEvent::Resolved(thread.paths().iter().map(|path| Ok(path.clone())).collect())
            }
            ServerAction::Ioctl { .. } => ServerEvent::Ioctl(Ok(())),
            ServerAction::UpdatePathMonitor => ServerEvent::MonitorUpdated(Ok(())),
            ServerAction::Respond(outcome) => {
                let outcome = *outcome;
                return (actions, outcome);
            }
        };
        actions.push(action);
        action = thread.handle(monitored, event);
    }
}

#[test]
fn new_thread_is_at_rest_without_addresses() {
    let thread = thread();
    assert!(thread.is_idle());
    assert_eq!(thread.phase(), ServerPhase::Idle);
    assert_eq!(thread.previous_addresses(), InterfaceAddresses::default());
    assert!(thread.paths().is_empty());
}

/// Sets the addresses of a tunnel with the one address `10.64.0.2` while the
/// default route for IPv4 leads through `192.168.1.10` and there is none for
/// IPv6. Gives the operations that reached the driver.
fn tunnel_up(
    controller: &mut SplitTunnel,
    thread: &mut RequestThread,
) -> (
    split_tunnel::controller::SplitTunnelDefaultRouteChangeHandlerContext,
    Vec<ServerAction>,
) {
    let mut monitored = Vec::new();
    let mut operations = Vec::new();
    let metadata = TunnelMetadata {
        ips: vec![IpAddress::V4(Ipv4Address::new(10, 64, 0, 2))],
    };
    let (mut context, mut action) = controller.set_tunnel_addresses(Some(&metadata));
    loop {
        let event = match action {
            SetupAction::ReplaceCallback => SetupEvent::CallbackRegistered(true),
            SetupAction::Probe(WinNetAddrFamily::IPV4) => SetupEvent::Probed(
                DefaultRouteProbe::Address(IpAddress::V4(Ipv4Address::new(192, 168, 1, 10))),
            ),
            SetupAction::Probe(WinNetAddrFamily::IPV6) => {
                SetupEvent::Probed(DefaultRouteProbe::NoRoute)
            }
            SetupAction::Send(request) => {
                let mut served = thread.handle(&mut monitored, ServerEvent::Request(request));
                loop {
                    served = match served {
                        ServerAction::Respond(outcome) => break SetupEvent::Registered(outcome),
                        operation => {
                            operations.push(operation);
                            thread.handle(&mut monitored, ServerEvent::Ioctl(Ok(())))
                        }
                    };
                }
            }
            SetupAction::Done(outcome) => {
                assert_eq!(outcome, Ok(()));
                return (context, operations);
            }
        };
        action = controller.tunnel_addresses_step(&mut context, event);
    }
}

#[test]
fn tunnel_up_without_ipv6_registers_once() {
    let mut controller = SplitTunnel::new();
    let mut thread = thread();
    let (context, operations) = tunnel_up(&mut controller, &mut thread);
    let expected = addresses(Some([10, 64, 0, 2]), Some([192, 168, 1, 10]));
    assert_eq!(context.addresses, expected);
    assert_eq!(operations, vec![register(expected, true)]);
    match &operations[0] {
        ServerAction::Ioctl { request, .. } => {
            let mut bytes = vec![10, 64, 0, 2, 192, 168, 1, 10];
            bytes.extend([0u8; 32]);
            assert_eq!(request.input, Some(bytes));
        }
        _ => unreachable!(),
    }
    assert_eq!(thread.previous_addresses(), expected);
    assert!(thread.is_idle());
    assert!(controller.has_route_callback());
}

#[test]
fn route_flapping_to_none_clears_the_tunnel_address() {
    let mut controller = SplitTunnel::new();
    let mut thread = thread();
    let mut monitored = Vec::new();
    let (mut context, _) = tunnel_up(&mut controller, &mut thread);

    let action = split_tunnel_default_route_change_handler(
        &mut context,
        WinNetDefaultRouteChangeEventType::DefaultRouteRemoved,
        WinNetAddrFamily::IPV4,
        Ok(None),
    );
    assert_eq!(context.addresses.internet_ipv4, None);
    assert_eq!(
        context.addresses.tunnel_ipv4,
        Some(Ipv4Address::new(10, 64, 0, 2))
    );
    let sent = match action {
        RouteHandlerAction::RegisterIps(sent) => sent,
        other => panic!("unexpected action {:?}", other),
    };
    assert_eq!(sent, context.addresses);

    let action = thread.handle(
        &mut monitored,
        ServerEvent::Request(Request::RegisterIps(sent)),
    );
    assert_eq!(action, register(InterfaceAddresses::default(), false));
    match &action {
        ServerAction::Ioctl { request, .. } => assert_eq!(request.input, Some(vec![0u8; 40])),
        _ => unreachable!(),
    }
    assert_eq!(
        thread.handle(&mut monitored, ServerEvent::Ioctl(Ok(()))),
        ServerAction::Respond(Ok(()))
    );
    assert_eq!(thread.previous_addresses(), InterfaceAddresses::default());
    assert_eq!(
        thread.handle(
            &mut monitored,
            ServerEvent::Request(Request::RegisterIps(sent))
        ),
        ServerAction::Respond(Ok(()))
    );
}

#[test]
fn set_and_reset_paths() {
    let mut thread = thread();
    let mut monitored = Vec::new();
    let (actions, outcome) = set_paths(&mut thread, &mut monitored, &["C:\\a.exe", "C:\\b.exe"]);
    assert_eq!(outcome, Ok(()));
    assert_eq!(
        actions,
        vec![
            ServerAction::ResolvePaths,
            set_configuration(&["C:\\a.exe", "C:\\b.exe"]),
            ServerAction::UpdatePathMonitor,
        ]
    );
    match &actions[1] {
        ServerAction::Ioctl { request, .. } => {
            let input = request.input.as_ref().unwrap();
            let w = std::mem::size_of::<usize>();
            assert_eq!(usize::from_le_bytes(input[..w].try_into().unwrap()), 2);
        }
        _ => unreachable!(),
    }
    assert_eq!(monitored, vec![utf16("C:\\a.exe"), utf16("C:\\b.exe")]);

    let (actions, outcome) = set_paths(&mut thread, &mut monitored, &[]);
    assert_eq!(outcome, Ok(()));
    assert_eq!(
        actions,
        vec![clear_configuration(), ServerAction::UpdatePathMonitor]
    );
    assert!(monitored.is_empty());
    assert!(thread.is_idle());
}

#[test]
fn path_monitor_reacts_with_the_same_configuration() {
    let mut thread = thread();
    let mut monitored = Vec::new();
    let (actions, _) = set_paths(&mut thread, &mut monitored, &["C:\\a.exe", "C:\\b.exe"]);
    let first = match &actions[1] {
        ServerAction::Ioctl { request, .. } => request.clone(),
        _ => unreachable!(),
    };

    assert!(should_reresolve(&monitored));
    assert_eq!(monitored.len(), 2);
    let resolved = monitored.iter().map(|path| Ok(path.clone())).collect();
    let device = open_device();
    assert_eq!(device.set_config(&resolved), Ok(first));
}

#[test]
fn path_monitor_has_nothing_to_do_without_paths() {
    assert!(!should_reresolve(&Vec::new()));
    assert!(should_reresolve(&vec![utf16("a")]));
}

#[test]
fn empty_paths_clear_the_configuration() {
    let mut thread = thread();
    let mut monitored = vec![utf16("stale")];
    let action = thread.handle(
        &mut monitored,
        ServerEvent::Request(Request::SetPaths(Vec::new())),
    );
    assert_eq!(action, clear_configuration());
    assert_eq!(thread.phase(), ServerPhase::ConfiguringDriver);
}

#[test]
fn unmounted_path_clears_the_configuration() {
    let mut thread = thread();
    let mut monitored = Vec::new();
    let request = Request::SetPaths(vec![utf16("E:\\gone.exe")]);
    assert_eq!(
        thread.handle(&mut monitored, ServerEvent::Request(request)),
        ServerAction::ResolvePaths
    );
    assert_eq!(thread.paths(), &vec![utf16("E:\\gone.exe")]);
    assert_eq!(
        thread.handle(&mut monitored, ServerEvent::Resolved(vec![Err(not_found())])),
        clear_configuration()
    );
    assert_eq!(
        thread.handle(&mut monitored, ServerEvent::Ioctl(Ok(()))),
        ServerAction::UpdatePathMonitor
    );
    assert_eq!(
        thread.handle(&mut monitored, ServerEvent::MonitorUpdated(Ok(()))),
        ServerAction::Respond(Ok(()))
    );
    assert_eq!(monitored, vec![utf16("E:\\gone.exe")]);
}

#[test]
fn failed_resolution_fails_the_request() {
    let mut thread = thread();
    let mut monitored = vec![utf16("kept")];
    let request = Request::SetPaths(vec![utf16("a"), utf16("b")]);
    thread.handle(&mut monitored, ServerEvent::Request(request));
    assert_eq!(
        thread.handle(
            &mut monitored,
            ServerEvent::Resolved(vec![Ok(utf16("\\Device\\a")), Err(os_error(5))])
        ),
        ServerAction::Respond(Err(Error::SetConfiguration(os_error(5))))
    );
    assert!(thread.is_idle());
    assert!(thread.paths().is_empty());
    assert_eq!(monitored, vec![utf16("kept")]);
}

#[test]
fn failed_configuration_fails_the_request() {
    let mut thread = thread();
    let mut monitored = vec![utf16("kept")];
    thread.handle(
        &mut monitored,
        ServerEvent::Request(Request::SetPaths(Vec::new())),
    );
    assert_eq!(
        thread.handle(&mut monitored, ServerEvent::Ioctl(Err(os_error(31)))),
        ServerAction::Respond(Err(Error::SetConfiguration(os_error(31))))
    );
    assert!(thread.is_idle());
    assert_eq!(monitored, vec![utf16("kept")]);
}

#[test]
fn failed_path_monitor_forgets_the_paths_but_succeeds() {
    let mut thread = thread();
    let mut monitored = vec![utf16("old")];
    let request = Request::SetPaths(vec![utf16("a")]);
    thread.handle(&mut monitored, ServerEvent::Request(request));
    thread.handle(&mut monitored, ServerEvent::Resolved(vec![Ok(utf16("\\Device\\a"))]));
    thread.handle(&mut monitored, ServerEvent::Ioctl(Ok(())));
    assert_eq!(thread.phase(), ServerPhase::UpdatingPathMonitor);
    assert_eq!(
        thread.handle(&mut monitored, ServerEvent::MonitorUpdated(Err(os_error(1)))),
        ServerAction::Respond(Ok(()))
    );
    assert!(monitored.is_empty());
    assert!(thread.is_idle());
}

#[test]
fn same_addresses_are_registered_once() {
    let mut thread = thread();
    let mut monitored = Vec::new();
    let ips = addresses(Some([10, 64, 0, 2]), Some([192, 168, 1, 10]));
    assert_eq!(
        thread.handle(&mut monitored, ServerEvent::Request(Request::RegisterIps(ips))),
        register(ips, true)
    );
    assert_eq!(
        thread.handle(&mut monitored, ServerEvent::Ioctl(Ok(()))),
        ServerAction::Respond(Ok(()))
    );
    assert_eq!(
        thread.handle(&mut monitored, ServerEvent::Request(Request::RegisterIps(ips))),
        ServerAction::Respond(Ok(()))
    );
    assert!(thread.is_idle());
}

#[test]
fn addresses_that_failed_to_register_are_tried_again() {
    let mut thread = thread();
    let mut monitored = Vec::new();
    let ips = addresses(Some([10, 64, 0, 2]), Some([192, 168, 1, 10]));
    thread.handle(&mut monitored, ServerEvent::Request(Request::RegisterIps(ips)));
    assert_eq!(
        thread.handle(&mut monitored, ServerEvent::Ioctl(Err(os_error(87)))),
        ServerAction::Respond(Err(Error::RegisterIps(os_error(87))))
    );
    assert_eq!(thread.previous_addresses(), InterfaceAddresses::default());
    assert_eq!(
        thread.handle(&mut monitored, ServerEvent::Request(Request::RegisterIps(ips))),
        register(ips, true)
    );
}

#[test]
fn no_addresses_on_a_fresh_thread_need_no_operation() {
    let mut thread = thread();
    let mut monitored = Vec::new();
    assert_eq!(
        thread.handle(
            &mut monitored,
            ServerEvent::Request(Request::RegisterIps(InterfaceAddresses::default()))
        ),
        ServerAction::Respond(Ok(()))
    );
    let tunnel_only = addresses(Some([10, 64, 0, 2]), None);
    assert_eq!(
        thread.handle(
            &mut monitored,
            ServerEvent::Request(Request::RegisterIps(tunnel_only))
        ),
        ServerAction::Respond(Ok(()))
    );
}

#[test]
fn tunnel_addresses_need_an_internet_address() {
    let with_v6 = InterfaceAddresses {
        tunnel_ipv4: Some(Ipv4Address::new(10, 64, 0, 2)),
        tunnel_ipv6: Some(Ipv6Address { bits: 1 }),
        internet_ipv4: None,
        internet_ipv6: Some(Ipv6Address { bits: 2 }),
    };
    assert!(with_v6.is_consistent());
    assert_eq!(with_v6.normalized(), with_v6);

    let without = InterfaceAddresses {
        internet_ipv6: None,
        ..with_v6
    };
    assert!(!without.is_consistent());
    assert_eq!(without.normalized(), InterfaceAddresses::default());
    assert!(InterfaceAddresses::default().is_consistent());
}

#[test]
fn routes_are_dumped_when_the_internet_address_changes_to_a_new_one() {
    let mut thread = thread();
    let mut monitored = Vec::new();
    let first = addresses(None, Some([192, 168, 1, 10]));
    assert_eq!(
        thread.handle(&mut monitored, ServerEvent::Request(Request::RegisterIps(first))),
        register(first, true)
    );
    thread.handle(&mut monitored, ServerEvent::Ioctl(Ok(())));

    let same_route = addresses(Some([10, 64, 0, 2]), Some([192, 168, 1, 10]));
    assert_eq!(
        thread.handle(
            &mut monitored,
            ServerEvent::Request(Request::RegisterIps(same_route))
        ),
        register(same_route, false)
    );
    thread.handle(&mut monitored, ServerEvent::Ioctl(Ok(())));

    let v6_only = InterfaceAddresses {
        tunnel_ipv4: None,
        tunnel_ipv6: None,
        internet_ipv4: None,
        internet_ipv6: Some(Ipv6Address { bits: 7 }),
    };
    assert_eq!(
        thread.handle(&mut monitored, ServerEvent::Request(Request::RegisterIps(v6_only))),
        register(v6_only, false)
    );
}

#[test]
fn requests_are_served_in_their_order() {
    let mut thread = thread();
    let mut monitored = Vec::new();
    let mut issued = Vec::new();
    let first = addresses(None, Some([1, 1, 1, 1]));
    let second = addresses(None, Some([2, 2, 2, 2]));
    for ips in [first, second] {
        match thread.handle(&mut monitored, ServerEvent::Request(Request::RegisterIps(ips))) {
            ServerAction::Ioctl { request, .. } => issued.push(request.input.unwrap()),
            other => panic!("unexpected action {:?}", other),
        }
        thread.handle(&mut monitored, ServerEvent::Ioctl(Ok(())));
    }
    assert_eq!(issued, vec![first.to_bytes(), second.to_bytes()]);
}

#[test]
fn sender_learns_what_became_of_its_request() {
    assert_eq!(REQUEST_TIMEOUT_SECS, 5);
    assert_eq!(
        send_request_inner(true, ReplyWait::Received(Ok(()))),
        Ok(())
    );
    assert_eq!(
        send_request_inner(true, ReplyWait::Received(Err(Error::RegisterIps(os_error(1))))),
        Err(Error::RegisterIps(os_error(1)))
    );
    assert_eq!(
        send_request_inner(true, ReplyWait::TimedOut),
        Err(Error::RequestThreadStuck)
    );
    assert_eq!(
        send_request_inner(true, ReplyWait::Disconnected),
        Err(Error::RequestThreadStuck)
    );
    assert_eq!(
        send_request_inner(false, ReplyWait::TimedOut),
        Err(Error::RequestThreadDown)
    );
    assert_eq!(
        send_request_inner(false, ReplyWait::Received(Ok(()))),
        Err(Error::RequestThreadDown)
    );
}

#[test]
fn reply_that_nobody_waits_for_leaves_the_thread_at_rest() {
    let mut thread = thread();
    let mut monitored = Vec::new();
    let ips = addresses(None, Some([1, 1, 1, 1]));
    thread.handle(&mut monitored, ServerEvent::Request(Request::RegisterIps(ips)));
    assert_eq!(
        send_request_inner(true, ReplyWait::TimedOut),
        Err(Error::RequestThreadStuck)
    );
    assert_eq!(
        thread.handle(&mut monitored, ServerEvent::Ioctl(Ok(()))),
        ServerAction::Respond(Ok(()))
    );
    assert!(thread.is_idle());
    let (_, outcome) = set_paths(&mut thread, &mut monitored, &["C:\\a.exe"]);
    assert_eq!(outcome, Ok(()));
}
