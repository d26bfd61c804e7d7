use split_tunnel::addresses::{IpAddress, Ipv4Address, Ipv6Address};
use split_tunnel::api_call::{Call, CurrentApiCall};
use split_tunnel::controller::WinNetDefaultRouteChangeEventType;
use split_tunnel::daemon::{exit_code, run_platform, running_as_admin, PlatformAction};
use split_tunnel::migration::{
    create_migrated_obfuscation_settings, device_with_key, entry_location_fix, migrate_port,
    same_key, version_matches, Constraint, EntryLocationFix, ObfuscationSettings,
    SelectedObfuscation, TransportPort, TransportProtocol, Udp2TcpObfuscationSettings,
};
use split_tunnel::wireguard::{check_wg_status, TunnelError, WgGoTunnel, MAX_PREPARE_TUN_ATTEMPTS};

type Calls = CurrentApiCall<&'static str, u8, &'static str, &'static str>;

#[test]
fn wireguard_status_codes() {
    assert_eq!(check_wg_status(0), Ok(()));
    assert_eq!(check_wg_status(17), Ok(()));
    assert_eq!(check_wg_status(i32::MAX), Ok(()));
    assert_eq!(
        check_wg_status(-1),
        Err(TunnelError::FatalStartWireguardError)
    );
    assert_eq!(
        check_wg_status(-2),
        Err(TunnelError::RecoverableStartWireguardError)
    );
    assert_eq!(
        check_wg_status(-3),
        Err(TunnelError::FatalStartWireguardError)
    );
    assert_eq!(
        check_wg_status(i32::MIN),
        Err(TunnelError::FatalStartWireguardError)
    );
}

#[test]
fn tunnel_is_stopped_once() {
    let mut tunnel = WgGoTunnel { handle: Some(3) };
    assert_eq!(tunnel.stop_tunnel(), Some(3));
    assert_eq!(tunnel.stop_tunnel(), None);
    assert_eq!(WgGoTunnel::stop_status(0), Ok(()));
    assert_eq!(WgGoTunnel::stop_status(5), Ok(()));
    assert_eq!(
        WgGoTunnel::stop_status(-4),
        Err(TunnelError::StopWireguardError { status: -4 })
    );
}

#[test]
fn sockets_are_bound_anew_when_the_route_changes() {
    assert_eq!(
        WgGoTunnel::default_route_changed_callback(
            WinNetDefaultRouteChangeEventType::DefaultRouteChanged,
            (0, 12)
        ),
        Some(12)
    );
    assert_eq!(
        WgGoTunnel::default_route_changed_callback(
            WinNetDefaultRouteChangeEventType::DefaultRouteChanged,
            (87, 12)
        ),
        None
    );
    assert_eq!(
        WgGoTunnel::default_route_changed_callback(
            WinNetDefaultRouteChangeEventType::DefaultRouteRemoved,
            (87, 12)
        ),
        Some(0)
    );
    assert_eq!(
        WgGoTunnel::default_route_changed_callback(
            WinNetDefaultRouteChangeEventType::DefaultRouteUpdatedDetails,
            (0, 12)
        ),
        None
    );
}

#[test]
fn bad_descriptor_is_tried_again_while_tries_are_left() {
    assert_eq!(MAX_PREPARE_TUN_ATTEMPTS, 4);
    assert_eq!(WgGoTunnel::get_tunnel(1, true, 9), Ok(()));
    assert_eq!(WgGoTunnel::get_tunnel(3, true, 77), Ok(()));
    assert_eq!(
        WgGoTunnel::get_tunnel(4, true, 9),
        Err(TunnelError::FdDuplicationError(9))
    );
    assert_eq!(
        WgGoTunnel::get_tunnel(1, false, 24),
        Err(TunnelError::FdDuplicationError(24))
    );
}

#[test]
fn gateways_are_the_name_servers() {
    let v4 = Ipv4Address::new(10, 64, 0, 1);
    let v6 = Ipv6Address { bits: 0xfc00 };
    assert_eq!(
        WgGoTunnel::create_tunnel_config(v4, Some(v6)),
        vec![IpAddress::V4(v4), IpAddress::V6(v6)]
    );
    assert_eq!(
        WgGoTunnel::create_tunnel_config(v4, None),
        vec![IpAddress::V4(v4)]
    );
    assert_eq!(
        WgGoTunnel::create_required_routes(v4, Some(v6)),
        vec![(IpAddress::V4(v4), 32), (IpAddress::V6(v6), 128)]
    );
    assert_eq!(
        WgGoTunnel::create_required_routes(v4, None),
        vec![(IpAddress::V4(v4), 32)]
    );
}

#[test]
fn administrator_is_user_zero() {
    assert!(running_as_admin(Some(0)));
    assert!(!running_as_admin(Some(1000)));
    assert!(running_as_admin(None));
}

#[test]
fn command_line_picks_the_action() {
    assert_eq!(run_platform(true, true, true), PlatformAction::RunService);
    assert_eq!(
        run_platform(false, true, true),
        PlatformAction::RestartService
    );
    assert_eq!(
        run_platform(false, false, true),
        PlatformAction::InstallService
    );
    assert_eq!(
        run_platform(false, false, false),
        PlatformAction::RunStandalone
    );
    assert_eq!(exit_code(true), 0);
    assert_eq!(exit_code(false), 1);
}

#[test]
fn no_call_is_under_way_at_first() {
    let calls = Calls::new();
    assert!(calls.is_idle());
    assert!(calls.is_terminated());
    assert!(!calls.is_validating());
    assert!(!calls.is_logging_in());
    assert!(!calls.is_running_timed_totation());
}

#[test]
fn calls_are_told_apart() {
    let mut calls = Calls::new();
    calls.set_login("login", 1);
    assert!(calls.is_logging_in());
    assert!(!calls.is_idle());
    assert!(!calls.is_validating());
    assert!(matches!(
        calls.current_call,
        Some(Call::Login("login", Some(1)))
    ));

    calls.set_oneshot_rotation("rotation");
    assert!(calls.is_validating());
    assert!(!calls.is_running_timed_totation());
    assert!(!calls.is_logging_in());

    calls.set_timed_rotation("rotation");
    assert!(calls.is_running_timed_totation());
    assert!(!calls.is_validating());

    calls.set_validation("validation");
    assert!(calls.is_validating());
    assert!(!calls.is_running_timed_totation());

    calls.clear();
    assert!(calls.is_idle());
}

#[test]
fn finished_call_is_forgotten() {
    let mut calls = Calls::new();
    calls.set_validation("validation");
    calls.poll(false);
    assert!(calls.is_validating());
    assert!(!calls.is_terminated());
    calls.poll(true);
    assert!(calls.is_idle());
    assert!(calls.is_terminated());
}

#[test]
fn only_version_five_is_migrated() {
    assert!(version_matches(Some(5)));
    assert!(!version_matches(Some(4)));
    assert!(!version_matches(Some(6)));
    assert!(!version_matches(None));
}

#[test]
fn entry_location_is_fixed_unless_multihop_is_set() {
    assert_eq!(entry_location_fix(None, false), EntryLocationFix::Keep);
    assert_eq!(entry_location_fix(None, true), EntryLocationFix::Keep);
    assert_eq!(entry_location_fix(Some(true), true), EntryLocationFix::Keep);
    assert_eq!(entry_location_fix(Some(false), true), EntryLocationFix::Keep);
    assert_eq!(
        entry_location_fix(Some(true), false),
        EntryLocationFix::RemoveEntryLocation
    );
    assert_eq!(
        entry_location_fix(Some(false), false),
        EntryLocationFix::EnableMultihop
    );
}

#[test]
fn tcp_port_moves_into_the_obfuscation_settings() {
    assert_eq!(migrate_port(Constraint::Any), None);
    assert_eq!(
        migrate_port(Constraint::Only(TransportPort {
            protocol: TransportProtocol::Udp,
            port: Constraint::Only(51820),
        })),
        Some((Constraint::Only(51820), None))
    );
    assert_eq!(
        migrate_port(Constraint::Only(TransportPort {
            protocol: TransportProtocol::Tcp,
            port: Constraint::Only(443),
        })),
        Some((
            Constraint::Any,
            Some(ObfuscationSettings {
                selected_obfuscation: SelectedObfuscation::Udp2Tcp,
                udp2tcp: Udp2TcpObfuscationSettings {
                    port: Constraint::Only(443)
                },
            })
        ))
    );
    assert_eq!(
        create_migrated_obfuscation_settings(Constraint::Any),
        ObfuscationSettings {
            selected_obfuscation: SelectedObfuscation::Udp2Tcp,
            udp2tcp: Udp2TcpObfuscationSettings {
                port: Constraint::Any
            },
        }
    );
    assert_eq!(SelectedObfuscation::default(), SelectedObfuscation::Auto);
}

#[test]
fn stored_key_finds_its_device() {
    let keys = vec![vec![1u8; 32], vec![2u8; 32], vec![3u8; 32], vec![2u8; 32]];
    assert_eq!(device_with_key(&keys, &vec![2u8; 32]), Some(1));
    assert_eq!(device_with_key(&keys, &vec![1u8; 32]), Some(0));
    assert_eq!(device_with_key(&keys, &vec![4u8; 32]), None);
    assert_eq!(device_with_key(&keys, &vec![2u8; 31]), None);
    assert_eq!(device_with_key(&Vec::new(), &vec![2u8; 32]), None);
    assert!(same_key(&vec![1, 2, 3], &vec![1, 2, 3]));
    assert!(!same_key(&vec![1, 2, 3], &vec![1, 2, 4]));
    assert!(!same_key(&vec![1, 2, 3], &vec![1, 2]));
    assert!(same_key(&Vec::new(), &Vec::new()));
}
