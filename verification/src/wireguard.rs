//! Decisions around the userspace WireGuard tunnel: what its status codes
//! mean, when its sockets are bound anew, and when the set-up of its
//! device is tried again.
use crate::addresses::{IpAddress, Ipv4Address, Ipv6Address};
use crate::controller::WinNetDefaultRouteChangeEventType;
use vstd::prelude::*;

verus! {

/// Status of a tunnel that could not be started and never will be.
pub const ERROR_GENERAL_FAILURE: i32 = -1;

/// Status of a tunnel that could not be started this time.
pub const ERROR_INTERMITTENT_FAILURE: i32 = -2;

/// How often the set-up of the tunnel device is tried.
pub const MAX_PREPARE_TUN_ATTEMPTS: usize = 4;

/// Errors of the tunnel that depend on a status code alone.
#[derive(Clone, Copy, Debug, PartialEq, Eq, Structural)]
pub enum TunnelError {
    /// The tunnel failed to start, and trying again will not help.
    FatalStartWireguardError,
    /// The tunnel failed to start, and may start when tried again.
    RecoverableStartWireguardError,
    /// The tunnel failed to stop.
    StopWireguardError { status: i32 },
    /// The tunnel device's file descriptor could not be duplicated.
    FdDuplicationError(i32),
}

/// What the status of a started tunnel means: a handle if it is not
/// negative, a failure to try again after for the intermittent failure, and
/// a fatal failure for every other negative code.
pub open spec fn wg_status(wg_code: i32) -> Result<(), TunnelError> {
    if wg_code == ERROR_INTERMITTENT_FAILURE {
        Err(TunnelError::RecoverableStartWireguardError)
    } else if wg_code < 0 {
        Err(TunnelError::FatalStartWireguardError)
    } else {
        Ok(())
    }
}

/// Says what the status of a started tunnel means.
pub fn check_wg_status(wg_code: i32) -> (status: Result<(), TunnelError>)
    ensures
        status == wg_status(wg_code),
{
    if wg_code == ERROR_GENERAL_FAILURE {
        Err(TunnelError::FatalStartWireguardError)
    } else if wg_code == ERROR_INTERMITTENT_FAILURE {
        Err(TunnelError::RecoverableStartWireguardError)
    } else if wg_code >= 0 {
        Ok(())
    } else {
        Err(TunnelError::FatalStartWireguardError)
    }
}

/// The tunnel as far as stopping it goes: the handle of the running tunnel,
/// if it runs.
#[derive(Debug)]
pub struct WgGoTunnel {
    pub handle: Option<i32>,
}

impl WgGoTunnel {
    /// Begins to stop the tunnel. The result is the handle to turn off, if
    /// the tunnel ran; after the call it runs no more. What turning off
    /// returned is judged by `stop_status`.
    pub fn stop_tunnel(&mut self) -> (handle: Option<i32>)
        ensures
            handle == old(self).handle,
            final(self).handle.is_none(),
    {
        self.handle.take()
    }

    /// Says what the status of a stopped tunnel means: a negative status is
    /// a failure.
    pub fn stop_status(status: i32) -> (outcome: Result<(), TunnelError>)
        ensures
            outcome == if status < 0 {
                Err::<(), TunnelError>(TunnelError::StopWireguardError { status })
            } else {
                Ok::<(), TunnelError>(())
            },
    {
        if status < 0 {
            Err(TunnelError::StopWireguardError { status })
        } else {
            Ok(())
        }
    }

    /// The interface to bind the tunnel's sockets to after a change of the
    /// default route, if they are to be bound anew.
    ///
    /// A new route binds them to its interface: `conversion` holds the
    /// status of turning the route's interface id into an index, and the
    /// index; with a status other than zero nothing is done. A removed
    /// route binds them to no interface, which is index zero. Changed
    /// details of the same route are passed over.
    pub fn default_route_changed_callback(
        event_type: WinNetDefaultRouteChangeEventType,
        conversion: (u32, u32),
    ) -> (interface_index: Option<u32>)
        ensures
            interface_index == match event_type {
                WinNetDefaultRouteChangeEventType::DefaultRouteChanged => if conversion.0 == 0 {
                    Some(conversion.1)
                } else {
                    None
                },
                WinNetDefaultRouteChangeEventType::DefaultRouteRemoved => Some(0u32),
                WinNetDefaultRouteChangeEventType::DefaultRouteUpdatedDetails => None,
            },
    {
        match event_type {
            WinNetDefaultRouteChangeEventType::DefaultRouteChanged => {
                if conversion.0 != 0 {
                    return None;
                }
                Some(conversion.1)
            },
            WinNetDefaultRouteChangeEventType::DefaultRouteRemoved => Some(0),
            WinNetDefaultRouteChangeEventType::DefaultRouteUpdatedDetails => None,
        }
    }

    /// What to do when the file descriptor of the tunnel device could not
    /// be duplicated at the `attempt`-th try, counted from one: try again
    /// with a fresh device if the system called the descriptor bad and
    /// tries are left, and else give up with the error. `errno` is the
    /// system's code for the failure.
    pub fn get_tunnel(attempt: usize, bad_descriptor: bool, errno: i32) -> (next: Result<
        (),
        TunnelError,
    >)
        requires
            1 <= attempt <= MAX_PREPARE_TUN_ATTEMPTS,
        ensures
            next == if bad_descriptor && attempt < MAX_PREPARE_TUN_ATTEMPTS {
                Ok::<(), TunnelError>(())
            } else {
                Err::<(), TunnelError>(TunnelError::FdDuplicationError(errno))
            },
    {
        if bad_descriptor && attempt < MAX_PREPARE_TUN_ATTEMPTS {
            Ok(())
        } else {
            Err(TunnelError::FdDuplicationError(errno))
        }
    }

    /// The name servers of the tunnel: its IPv4 gateway, and its IPv6
    /// gateway if it has one.
    pub fn create_tunnel_config(ipv4_gateway: Ipv4Address, ipv6_gateway: Option<Ipv6Address>) -> (
        dns_servers: Vec<IpAddress>)
        ensures
            dns_servers@ == match ipv6_gateway {
                Some(gateway) => seq![IpAddress::V4(ipv4_gateway), IpAddress::V6(gateway)],
                None => seq![IpAddress::V4(ipv4_gateway)],
            },
    {
        let mut dns_servers: Vec<IpAddress> = Vec::new();
        dns_servers.push(IpAddress::V4(ipv4_gateway));
        match ipv6_gateway {
            Some(gateway) => {
                dns_servers.push(IpAddress::V6(gateway));
            },
            None => {},
        }
        proof {
            match ipv6_gateway {
                Some(gateway) => {
                    assert(dns_servers@ =~= seq![
                        IpAddress::V4(ipv4_gateway),
                        IpAddress::V6(gateway),
                    ]);
                },
                None => {
                    assert(dns_servers@ =~= seq![IpAddress::V4(ipv4_gateway)]);
                },
            }
        }
        dns_servers
    }

    /// The routes that must lead into the tunnel: to each of its gateways
    /// alone, so with a prefix as long as the address.
    pub fn create_required_routes(
        ipv4_gateway: Ipv4Address,
        ipv6_gateway: Option<Ipv6Address>,
    ) -> (routes: Vec<(IpAddress, u8)>)
        ensures
            routes@ == match ipv6_gateway {
                Some(gateway) => seq![
                    (IpAddress::V4(ipv4_gateway), 32u8),
                    (IpAddress::V6(gateway), 128u8),
                ],
                None => seq![(IpAddress::V4(ipv4_gateway), 32u8)],
            },
    {
        let mut routes: Vec<(IpAddress, u8)> = Vec::new();
        routes.push((IpAddress::V4(ipv4_gateway), 32));
        match ipv6_gateway {
            Some(gateway) => {
                routes.push((IpAddress::V6(gateway), 128));
            },
            None => {},
        }
        proof {
            match ipv6_gateway {
                Some(gateway) => {
                    assert(routes@ =~= seq![
                        (IpAddress::V4(ipv4_gateway), 32u8),
                        (IpAddress::V6(gateway), 128u8),
                    ]);
                },
                None => {
                    assert(routes@ =~= seq![(IpAddress::V4(ipv4_gateway), 32u8)]);
                },
            }
        }
        routes
    }
}

} // verus!
