//! The controller that the tunnel state machine talks to: it keeps the
//! driver's addresses in step with the tunnel and the default route, and
//! guards the list of excluded applications against overlapping updates.
use crate::addresses::{
    select_tunnel_addresses, tunnel_addresses_of, InterfaceAddresses, IpAddress, Ipv4Address,
    Ipv6Address, TunnelMetadata,
};
use crate::config::paths_of;
use crate::error::{DeviceHandleError, Error, IoError, WinNetError};
use crate::requests::{ReplyWait, Request, RequestView};
use vstd::prelude::*;

verus! {

/// The two address families.
#[derive(Clone, Copy, Debug, PartialEq, Eq, Structural)]
pub enum WinNetAddrFamily {
    IPV4,
    IPV6,
}

/// What happened to the best default route of a family.
#[derive(Clone, Copy, Debug, PartialEq, Eq, Structural)]
pub enum WinNetDefaultRouteChangeEventType {
    /// Another route is the best now.
    DefaultRouteChanged,
    /// The best route is the same, but details of its interface changed.
    DefaultRouteUpdatedDetails,
    /// There is no default route any more.
    DefaultRouteRemoved,
}

/// Why the tunnel state machine is told to block all traffic.
#[derive(Clone, Copy, Debug, PartialEq, Eq, Structural)]
pub enum ErrorStateCause {
    /// The split tunnel could not follow a change of routes.
    SplitTunnelError,
}

/// A command for the tunnel state machine.
#[derive(Clone, Copy, Debug, PartialEq, Eq, Structural)]
pub enum TunnelCommand {
    /// Let no traffic pass, for the given reason.
    Block(ErrorStateCause),
}

/// What asking the system for the best default route of one family, and
/// then for an address of that route's interface, came to.
#[derive(Clone, Copy, Debug, PartialEq, Eq, Structural)]
pub enum DefaultRouteProbe {
    /// The route could not be asked for.
    RouteFailed(WinNetError),
    /// There is no default route.
    NoRoute,
    /// There is a route, but the address of its interface could not be
    /// asked for.
    AddressFailed(WinNetError),
    /// There is a route, and its interface has no address of the family.
    NoAddress,
    /// There is a route, and this is the address of its interface.
    Address(IpAddress),
}

impl DefaultRouteProbe {
    /// The address that the probe found, if the probe itself did not fail.
    pub open spec fn spec_address(self) -> Result<Option<IpAddress>, Error> {
        match self {
            DefaultRouteProbe::RouteFailed(error) => Err(Error::ObtainDefaultRoute(error)),
            DefaultRouteProbe::AddressFailed(error) => Err(Error::LuidToIp(error)),
            DefaultRouteProbe::NoRoute | DefaultRouteProbe::NoAddress => Ok(None),
            DefaultRouteProbe::Address(address) => Ok(Some(address)),
        }
    }

    /// The address that the probe found, if the probe itself did not fail.
    #[verifier::when_used_as_spec(spec_address)]
    pub fn address(self) -> (found: Result<Option<IpAddress>, Error>)
        ensures
            found == self.spec_address(),
    {
        match self {
            DefaultRouteProbe::RouteFailed(error) => Err(Error::ObtainDefaultRoute(error)),
            DefaultRouteProbe::AddressFailed(error) => Err(Error::LuidToIp(error)),
            DefaultRouteProbe::NoRoute | DefaultRouteProbe::NoAddress => Ok(None),
            DefaultRouteProbe::Address(address) => Ok(Some(address)),
        }
    }
}

/// The internet addresses that two probes give, and the outcome of taking
/// them, for a context that holds `addresses`.
///
/// A failed probe fails the whole and changes nothing; the IPv4 probe comes
/// first. An address of the wrong family is an error: under the IPv4 probe
/// nothing changes, under the IPv6 probe the IPv4 address has been taken
/// already.
pub open spec fn with_internet_addresses(
    addresses: InterfaceAddresses,
    ipv4: DefaultRouteProbe,
    ipv6: DefaultRouteProbe,
) -> (InterfaceAddresses, Result<(), Error>) {
    match (ipv4.spec_address(), ipv6.spec_address()) {
        (Err(error), _) => (addresses, Err(error)),
        (Ok(_), Err(error)) => (addresses, Err(error)),
        (Ok(Some(IpAddress::V6(_))), Ok(_)) => (addresses, Err(Error::IpParseError)),
        (Ok(found4), Ok(found6)) => {
            let internet_ipv4 = match found4 {
                Some(IpAddress::V4(address)) => Some(address),
                _ => None,
            };
            match found6 {
                Some(IpAddress::V4(_)) => (
                    InterfaceAddresses { internet_ipv4, ..addresses },
                    Err(Error::IpParseError),
                ),
                Some(IpAddress::V6(address)) => (
                    InterfaceAddresses { internet_ipv4, internet_ipv6: Some(address), ..addresses },
                    Ok(()),
                ),
                None => (
                    InterfaceAddresses { internet_ipv4, internet_ipv6: None, ..addresses },
                    Ok(()),
                ),
            }
        },
    }
}

/// What the handler of route changes does to the addresses, and what it
/// asks for then.
///
/// A changed route, or changed details of it, give the internet address of
/// the family that the found address is of; where the interface has no
/// address, the internet address of the event's family is cleared; where
/// the address cannot be asked for, nothing changes and traffic is blocked.
/// A removed route clears the internet address of the event's family. In
/// every case but the blocked one the addresses are registered anew.
pub open spec fn route_change(
    addresses: InterfaceAddresses,
    event_type: WinNetDefaultRouteChangeEventType,
    address_family: WinNetAddrFamily,
    interface_address: Result<Option<IpAddress>, WinNetError>,
) -> (InterfaceAddresses, RouteHandlerAction) {
    let cleared = match address_family {
        WinNetAddrFamily::IPV4 => InterfaceAddresses { internet_ipv4: None, ..addresses },
        WinNetAddrFamily::IPV6 => InterfaceAddresses { internet_ipv6: None, ..addresses },
    };
    match event_type {
        WinNetDefaultRouteChangeEventType::DefaultRouteRemoved => (
            cleared,
            RouteHandlerAction::RegisterIps(cleared),
        ),
        _ => match interface_address {
            Err(_) => (
                addresses,
                RouteHandlerAction::Block(TunnelCommand::Block(ErrorStateCause::SplitTunnelError)),
            ),
            Ok(None) => (cleared, RouteHandlerAction::RegisterIps(cleared)),
            Ok(Some(IpAddress::V4(address))) => {
                let next = InterfaceAddresses { internet_ipv4: Some(address), ..addresses };
                (next, RouteHandlerAction::RegisterIps(next))
            },
            Ok(Some(IpAddress::V6(address))) => {
                let next = InterfaceAddresses { internet_ipv6: Some(address), ..addresses };
                (next, RouteHandlerAction::RegisterIps(next))
            },
        },
    }
}

/// What the handler of route changes asks for.
#[derive(Clone, Copy, Debug, PartialEq, Eq, Structural)]
pub enum RouteHandlerAction {
    /// Send a request to register these addresses, and wait for the reply.
    RegisterIps(InterfaceAddresses),
    /// Send this command to the tunnel state machine, if it still listens.
    Block(TunnelCommand),
}

/// What the handler of default-route changes knows: the addresses as they
/// were last sent for registration.
#[derive(Clone, Copy, Debug, PartialEq, Eq, Structural)]
pub struct SplitTunnelDefaultRouteChangeHandlerContext {
    pub addresses: InterfaceAddresses,
}

impl SplitTunnelDefaultRouteChangeHandlerContext {
    /// A context for a tunnel with the given addresses. No internet address
    /// is known yet.
    pub fn new(tunnel_ipv4: Option<Ipv4Address>, tunnel_ipv6: Option<Ipv6Address>) -> (context:
        SplitTunnelDefaultRouteChangeHandlerContext)
        ensures
            context.addresses == (InterfaceAddresses {
                tunnel_ipv4,
                tunnel_ipv6,
                internet_ipv4: None,
                internet_ipv6: None,
            }),
    {
        SplitTunnelDefaultRouteChangeHandlerContext {
            addresses: InterfaceAddresses {
                tunnel_ipv4,
                tunnel_ipv6,
                internet_ipv4: None,
                internet_ipv6: None,
            },
        }
    }

    /// The request that registers the context's addresses.
    pub fn register_ips(&self) -> (request: Request)
        ensures
            request@ == RequestView::RegisterIps(self.addresses),
    {
        Request::RegisterIps(self.addresses)
    }

    /// Takes the internet addresses from the probes of the best default
    /// routes, one probe per family.
    pub fn initialize_internet_addresses(
        &mut self,
        ipv4: DefaultRouteProbe,
        ipv6: DefaultRouteProbe,
    ) -> (outcome: Result<(), Error>)
        ensures
            (final(self).addresses, outcome) == with_internet_addresses(
                old(self).addresses,
                ipv4,
                ipv6,
            ),
    {
        let internet_ipv4: Option<IpAddress> = match ipv4.address() {
            Ok(found) => found,
            Err(error) => {
                return Err(error);
            },
        };
        let internet_ipv6: Option<IpAddress> = match ipv6.address() {
            Ok(found) => found,
            Err(error) => {
                return Err(error);
            },
        };
        self.addresses.internet_ipv4 = match internet_ipv4 {
            Some(IpAddress::V4(address)) => Some(address),
            Some(IpAddress::V6(_)) => {
                return Err(Error::IpParseError);
            },
            None => None,
        };
        self.addresses.internet_ipv6 = match internet_ipv6 {
            Some(IpAddress::V6(address)) => Some(address),
            Some(IpAddress::V4(_)) => {
                return Err(Error::IpParseError);
            },
            None => None,
        };
        Ok(())
    }
}

/// Whether the handler of route changes needs the address of the new
/// route's interface: it does unless the route was removed.
pub fn needs_interface_address(event_type: WinNetDefaultRouteChangeEventType) -> (needed: bool)
    ensures
        needed == (event_type != WinNetDefaultRouteChangeEventType::DefaultRouteRemoved),
{
    match event_type {
        WinNetDefaultRouteChangeEventType::DefaultRouteRemoved => false,
        _ => true,
    }
}

/// Follows a change of the best default route: updates the internet address
/// in `context` and says what to ask for. `interface_address` is the address
/// of the new route's interface as the system gave it; it is not looked at
/// for a removed route.
pub fn split_tunnel_default_route_change_handler(
    context: &mut SplitTunnelDefaultRouteChangeHandlerContext,
    event_type: WinNetDefaultRouteChangeEventType,
    address_family: WinNetAddrFamily,
    interface_address: Result<Option<IpAddress>, WinNetError>,
) -> (action: RouteHandlerAction)
    ensures
        (final(context).addresses, action) == route_change(
            old(context).addresses,
            event_type,
            address_family,
            interface_address,
        ),
{
    match event_type {
        WinNetDefaultRouteChangeEventType::DefaultRouteRemoved => {
            clear_internet_address(context, address_family);
        },
        _ => match interface_address {
            Ok(Some(IpAddress::V4(address))) => {
                context.addresses.internet_ipv4 = Some(address);
            },
            Ok(Some(IpAddress::V6(address))) => {
                context.addresses.internet_ipv6 = Some(address);
            },
            Ok(None) => {
                clear_internet_address(context, address_family);
            },
            Err(_) => {
                return RouteHandlerAction::Block(
                    TunnelCommand::Block(ErrorStateCause::SplitTunnelError),
                );
            },
        },
    }
    RouteHandlerAction::RegisterIps(context.addresses)
}

/// Forgets the internet address of one family.
fn clear_internet_address(
    context: &mut SplitTunnelDefaultRouteChangeHandlerContext,
    address_family: WinNetAddrFamily,
)
    ensures
        final(context).addresses == match address_family {
            WinNetAddrFamily::IPV4 => InterfaceAddresses {
                internet_ipv4: None,
                ..old(context).addresses
            },
            WinNetAddrFamily::IPV6 => InterfaceAddresses {
                internet_ipv6: None,
                ..old(context).addresses
            },
        },
{
    match address_family {
        WinNetAddrFamily::IPV4 => {
            context.addresses.internet_ipv4 = None;
        },
        WinNetAddrFamily::IPV6 => {
            context.addresses.internet_ipv6 = None;
        },
    }
}

/// What the handler of route changes does once its request was answered:
/// where the addresses could not be registered, traffic is blocked.
pub fn route_registration_done(outcome: Result<(), Error>) -> (command: Option<TunnelCommand>)
    ensures
        command == match outcome {
            Ok(()) => None,
            Err(_) => Some(TunnelCommand::Block(ErrorStateCause::SplitTunnelError)),
        },
{
    match outcome {
        Ok(()) => None,
        Err(_) => Some(TunnelCommand::Block(ErrorStateCause::SplitTunnelError)),
    }
}

/// What came of one step of the controller's start.
#[derive(Clone, Copy, Debug, PartialEq, Eq)]
pub enum StartupEvent {
    /// The path monitor was started, or could not be.
    PathMonitorStarted(Result<(), IoError>),
    /// The wait for the request thread to open the device ended.
    DeviceOpened(DeviceWait),
    /// The object that signals the arrival of driver events was created, or
    /// could not be.
    EventObjectCreated(Result<(), IoError>),
}

/// How the wait for the request thread to open the device ended.
#[derive(Clone, Copy, Debug, PartialEq, Eq)]
pub enum DeviceWait {
    /// The thread reported in time.
    Received(Result<(), DeviceHandleError>),
    /// The thread did not report in time.
    TimedOut,
    /// The thread went away without a report.
    Disconnected,
}

/// What to do next while the controller starts.
#[derive(Clone, Copy, Debug, PartialEq, Eq)]
pub enum StartupAction {
    /// Start the request thread, which opens the device, and wait for its
    /// report.
    SpawnRequestThread,
    /// Create the object that signals the arrival of driver events.
    CreateEventObject,
    /// Start the thread that reads the driver's events. The controller is
    /// up.
    SpawnEventThread,
    /// Give up with this error.
    Fail(Error),
}

/// The step that follows an event of the controller's start: the path
/// monitor first, then the device, then the event reader, and the error of
/// the first step that fails.
pub open spec fn startup_step(event: StartupEvent) -> StartupAction {
    match event {
        StartupEvent::PathMonitorStarted(Err(error)) => StartupAction::Fail(
            Error::StartPathMonitor(error),
        ),
        StartupEvent::PathMonitorStarted(Ok(())) => StartupAction::SpawnRequestThread,
        StartupEvent::DeviceOpened(DeviceWait::Received(Err(error))) => StartupAction::Fail(
            Error::InitializationError(error),
        ),
        StartupEvent::DeviceOpened(DeviceWait::Received(Ok(()))) => StartupAction::CreateEventObject,
        StartupEvent::DeviceOpened(_) => StartupAction::Fail(Error::RequestThreadStuck),
        StartupEvent::EventObjectCreated(Err(error)) => StartupAction::Fail(
            Error::EventThreadError(error),
        ),
        StartupEvent::EventObjectCreated(Ok(())) => StartupAction::SpawnEventThread,
    }
}

/// How far the setting of the tunnel's addresses has come.
#[derive(Clone, Copy, Debug, PartialEq, Eq, Structural)]
pub enum SetupPhase {
    /// No setting is under way.
    Idle,
    /// The new handler of route changes is being registered.
    RegisteringCallback,
    /// The best default route for IPv4 is being probed.
    ProbingIpv4,
    /// The best default route for IPv6 is being probed. The probe for IPv4
    /// came to this.
    ProbingIpv6(DefaultRouteProbe),
    /// The addresses are being registered.
    RegisteringIps,
}

/// What came of one step of the setting of the tunnel's addresses.
#[derive(Clone, Copy, Debug, PartialEq, Eq)]
pub enum SetupEvent {
    /// The new handler of route changes was registered, or could not be.
    CallbackRegistered(bool),
    /// The best default route of a family was probed.
    Probed(DefaultRouteProbe),
    /// The request to register the addresses was answered.
    Registered(Result<(), Error>),
}

/// What to do next while the tunnel's addresses are set.
#[derive(Debug, PartialEq, Eq)]
pub enum SetupAction {
    /// Drop the handler of route changes that is registered, if any, and
    /// only then register a new one for the fresh context.
    ReplaceCallback,
    /// Probe the best default route of the family.
    Probe(WinNetAddrFamily),
    /// Send the request and wait for the reply.
    Send(Request),
    /// Nothing more. After success, keep the new handler; after failure,
    /// drop it if it was registered.
    Done(Result<(), Error>),
}

/// A step of the setting as a mathematical value.
pub enum SetupActionView {
    ReplaceCallback,
    Probe(WinNetAddrFamily),
    Send(RequestView),
    Done(Result<(), Error>),
}

impl View for SetupAction {
    type V = SetupActionView;

    open spec fn view(&self) -> SetupActionView {
        match self {
            SetupAction::ReplaceCallback => SetupActionView::ReplaceCallback,
            SetupAction::Probe(family) => SetupActionView::Probe(*family),
            SetupAction::Send(request) => SetupActionView::Send(request@),
            SetupAction::Done(outcome) => SetupActionView::Done(*outcome),
        }
    }
}

/// Manages applications whose traffic to exclude from the tunnel.
#[derive(Debug)]
pub struct SplitTunnel {
    event_thread: bool,
    route_change_callback: bool,
    async_path_update_in_progress: bool,
    setup: SetupPhase,
}

/// The controller as a mathematical value.
pub struct SplitTunnelView {
    /// Whether the thread that reads driver events runs.
    pub event_thread: bool,
    /// Whether a handler of route changes is kept registered.
    pub route_change_callback: bool,
    /// Whether an update of the paths is under way that nobody waits for.
    pub async_path_update_in_progress: bool,
    /// How far the setting of the tunnel's addresses has come.
    pub setup: SetupPhase,
}

/// Whether `event` is the kind of event that `phase` waits for.
pub open spec fn setup_awaits(phase: SetupPhase, event: SetupEvent) -> bool {
    match phase {
        SetupPhase::Idle => false,
        SetupPhase::RegisteringCallback => event is CallbackRegistered,
        SetupPhase::ProbingIpv4 | SetupPhase::ProbingIpv6(_) => event is Probed,
        SetupPhase::RegisteringIps => event is Registered,
    }
}

/// The controller, the context of the new handler and the next step after
/// an event of the setting of the tunnel's addresses.
///
/// The new handler is registered first; then the best default routes are
/// probed, IPv4 before IPv6, and the addresses that they give taken into
/// the context; then the context's addresses are registered. Only when all
/// of this has succeeded is the new handler kept. The first failure ends
/// the setting with its error.
pub open spec fn setup_step(
    controller: SplitTunnelView,
    addresses: InterfaceAddresses,
    event: SetupEvent,
) -> (SplitTunnelView, InterfaceAddresses, SetupActionView) {
    let ended = SplitTunnelView { setup: SetupPhase::Idle, ..controller };
    match (controller.setup, event) {
        (SetupPhase::RegisteringCallback, SetupEvent::CallbackRegistered(registered)) => {
            if registered {
                (
                    SplitTunnelView { setup: SetupPhase::ProbingIpv4, ..controller },
                    addresses,
                    SetupActionView::Probe(WinNetAddrFamily::IPV4),
                )
            } else {
                (ended, addresses, SetupActionView::Done(Err(Error::RegisterRouteChangeCallback)))
            }
        },
        (SetupPhase::ProbingIpv4, SetupEvent::Probed(ipv4)) => match ipv4.spec_address() {
            Err(error) => (ended, addresses, SetupActionView::Done(Err(error))),
            Ok(_) => (
                SplitTunnelView { setup: SetupPhase::ProbingIpv6(ipv4), ..controller },
                addresses,
                SetupActionView::Probe(WinNetAddrFamily::IPV6),
            ),
        },
        (SetupPhase::ProbingIpv6(ipv4), SetupEvent::Probed(ipv6)) => {
            let taken = with_internet_addresses(addresses, ipv4, ipv6);
            match taken.1 {
                Err(error) => (ended, taken.0, SetupActionView::Done(Err(error))),
                Ok(()) => (
                    SplitTunnelView { setup: SetupPhase::RegisteringIps, ..controller },
                    taken.0,
                    SetupActionView::Send(RequestView::RegisterIps(taken.0)),
                ),
            }
        },
        (SetupPhase::RegisteringIps, SetupEvent::Registered(Err(error))) => (
            ended,
            addresses,
            SetupActionView::Done(Err(error)),
        ),
        (SetupPhase::RegisteringIps, SetupEvent::Registered(Ok(()))) => (
            SplitTunnelView { route_change_callback: true, ..ended },
            addresses,
            SetupActionView::Done(Ok(())),
        ),
        _ => (controller, addresses, SetupActionView::Done(Ok(()))),
    }
}

impl View for SplitTunnel {
    type V = SplitTunnelView;

    closed spec fn view(&self) -> SplitTunnelView {
        SplitTunnelView {
            event_thread: self.event_thread,
            route_change_callback: self.route_change_callback,
            async_path_update_in_progress: self.async_path_update_in_progress,
            setup: self.setup,
        }
    }
}

/// The paths of a list, each copied.
fn copy_paths(paths: &Vec<Vec<u16>>) -> (copy: Vec<Vec<u16>>)
    ensures
        paths_of(copy@) == paths_of(paths@),
{
    let mut copy: Vec<Vec<u16>> = Vec::new();
    let mut i: usize = 0;
    while i < paths.len()
        invariant
            i <= paths@.len(),
            copy@.len() == i,
            forall|k: int| 0 <= k < i ==> copy@[k]@ == paths@[k]@,
        decreases paths@.len() - i,
    {
        let path: Vec<u16> = paths[i].clone();
        copy.push(path);
        i += 1;
    }
    proof {
        assert(paths_of(copy@) =~= paths_of(paths@));
    }
    copy
}

impl SplitTunnel {
    /// Says what follows an event of the controller's start.
    pub fn start(event: StartupEvent) -> (action: StartupAction)
        ensures
            action == startup_step(event),
    {
        match event {
            StartupEvent::PathMonitorStarted(Err(error)) => StartupAction::Fail(
                Error::StartPathMonitor(error),
            ),
            StartupEvent::PathMonitorStarted(Ok(())) => StartupAction::SpawnRequestThread,
            StartupEvent::DeviceOpened(DeviceWait::Received(Err(error))) => StartupAction::Fail(
                Error::InitializationError(error),
            ),
            StartupEvent::DeviceOpened(DeviceWait::Received(Ok(()))) =>
                StartupAction::CreateEventObject,
            StartupEvent::DeviceOpened(_) => StartupAction::Fail(Error::RequestThreadStuck),
            StartupEvent::EventObjectCreated(Err(error)) => StartupAction::Fail(
                Error::EventThreadError(error),
            ),
            StartupEvent::EventObjectCreated(Ok(())) => StartupAction::SpawnEventThread,
        }
    }

    /// The controller once it is up: the event thread runs, no handler of
    /// route changes is registered, no update of paths is under way.
    pub fn new() -> (controller: SplitTunnel)
        ensures
            controller@ == (SplitTunnelView {
                event_thread: true,
                route_change_callback: false,
                async_path_update_in_progress: false,
                setup: SetupPhase::Idle,
            }),
    {
        SplitTunnel {
            event_thread: true,
            route_change_callback: false,
            async_path_update_in_progress: false,
            setup: SetupPhase::Idle,
        }
    }

    /// The request that sets the list of applications to exclude from the
    /// tunnel. The caller sends it and waits for the reply.
    pub fn set_paths_sync(&self, paths: &Vec<Vec<u16>>) -> (request: Request)
        ensures
            request@ == RequestView::SetPaths(paths_of(paths@)),
    {
        Request::SetPaths(copy_paths(paths))
    }

    /// Begins to set the list of applications to exclude from the tunnel
    /// without waiting for the end. While an earlier such update is under
    /// way, the call is refused and no request is made; else the update is
    /// under way from now on, and the caller sends the request and, once it
    /// has the reply, calls `path_update_done`.
    pub fn set_paths(&mut self, paths: &Vec<Vec<u16>>) -> (request: Result<Request, Error>)
        ensures
            (final(self)@, begun_view(request)) == begin_path_update(old(self)@, paths_of(paths@)),
    {
        let busy: bool = self.async_path_update_in_progress;
        self.async_path_update_in_progress = true;
        if busy {
            return Err(Error::AlreadySettingPaths);
        }
        Ok(Request::SetPaths(copy_paths(paths)))
    }

    /// Ends an update of paths that `set_paths` began, and says what its
    /// caller is told: the reply if the request was handed over and
    /// answered, and else that the request thread is down.
    pub fn path_update_done(&mut self, delivered: bool, reply: ReplyWait) -> (outcome: Result<
        (),
        Error,
    >)
        ensures
            final(self)@ == end_path_update(old(self)@),
            outcome == match reply {
                ReplyWait::Received(answer) if delivered => answer,
                _ => Err(Error::RequestThreadDown),
            },
    {
        self.async_path_update_in_progress = false;
        if !delivered {
            return Err(Error::RequestThreadDown);
        }
        match reply {
            ReplyWait::Received(answer) => answer,
            _ => Err(Error::RequestThreadDown),
        }
    }

    /// Begins to make the driver redirect traffic from sockets bound to any
    /// address or to the tunnel's addresses to the default route.
    ///
    /// The result is the fresh context for a new handler of route changes,
    /// with the tunnel's addresses in it: the first IPv4 address that the
    /// tunnel advertises, or the reserved address if it advertises none, and
    /// the first IPv6 address, if any. The handler that was kept registered
    /// is kept no longer: the first step is to drop it and register a new
    /// one. What came of each step is handed to `tunnel_addresses_step`.
    pub fn set_tunnel_addresses(&mut self, metadata: Option<&TunnelMetadata>) -> (begun: (
        SplitTunnelDefaultRouteChangeHandlerContext,
        SetupAction,
    ))
        ensures
            final(self)@ == (SplitTunnelView {
                route_change_callback: false,
                setup: SetupPhase::RegisteringCallback,
                ..old(self)@
            }),
            begun.0.addresses == ({
                let picked = tunnel_addresses_of(
                    match metadata {
                        Some(m) => Some(m.ips@),
                        None => None,
                    },
                );
                InterfaceAddresses {
                    tunnel_ipv4: picked.0,
                    tunnel_ipv6: picked.1,
                    internet_ipv4: None,
                    internet_ipv6: None,
                }
            }),
            begun.0.addresses.tunnel_ipv4.is_some(),
            begun.1@ == SetupActionView::ReplaceCallback,
    {
        let (tunnel_ipv4, tunnel_ipv6) = select_tunnel_addresses(metadata);
        self.route_change_callback = false;
        self.setup = SetupPhase::RegisteringCallback;
        (
            SplitTunnelDefaultRouteChangeHandlerContext::new(tunnel_ipv4, tunnel_ipv6),
            SetupAction::ReplaceCallback,
        )
    }

    /// How far the setting of the tunnel's addresses has come.
    pub fn setup_phase(&self) -> (phase: SetupPhase)
        ensures
            phase == self@.setup,
    {
        self.setup
    }

    /// Whether a handler of route changes is kept registered.
    pub fn has_route_callback(&self) -> (kept: bool)
        ensures
            kept == self@.route_change_callback,
    {
        self.route_change_callback
    }

    /// Takes what came of a step of the setting of the tunnel's addresses,
    /// updates the context of the new handler, and says what to do next.
    pub fn tunnel_addresses_step(
        &mut self,
        context: &mut SplitTunnelDefaultRouteChangeHandlerContext,
        event: SetupEvent,
    ) -> (action: SetupAction)
        requires
            setup_awaits(old(self)@.setup, event),
        ensures
            (final(self)@, final(context).addresses, action@) == setup_step(
                old(self)@,
                old(context).addresses,
                event,
            ),
    {
        match event {
            SetupEvent::CallbackRegistered(registered) => {
                if registered {
                    self.setup = SetupPhase::ProbingIpv4;
                    SetupAction::Probe(WinNetAddrFamily::IPV4)
                } else {
                    self.setup = SetupPhase::Idle;
                    SetupAction::Done(Err(Error::RegisterRouteChangeCallback))
                }
            },
            SetupEvent::Probed(probe) => match self.setup {
                SetupPhase::ProbingIpv6(ipv4) => {
                    match context.initialize_internet_addresses(ipv4, probe) {
                        Err(error) => {
                            self.setup = SetupPhase::Idle;
                            SetupAction::Done(Err(error))
                        },
                        Ok(()) => {
                            self.setup = SetupPhase::RegisteringIps;
                            SetupAction::Send(context.register_ips())
                        },
                    }
                },
                _ => match probe.address() {
                    Err(error) => {
                        self.setup = SetupPhase::Idle;
                        SetupAction::Done(Err(error))
                    },
                    Ok(_) => {
                        self.setup = SetupPhase::ProbingIpv6(probe);
                        SetupAction::Probe(WinNetAddrFamily::IPV6)
                    },
                },
            },
            SetupEvent::Registered(outcome) => {
                self.setup = SetupPhase::Idle;
                match outcome {
                    Ok(()) => {
                        self.route_change_callback = true;
                        SetupAction::Done(Ok(()))
                    },
                    Err(error) => SetupAction::Done(Err(error)),
                }
            },
        }
    }

    /// Makes the driver stop redirecting: the handler of route changes is
    /// dropped, and the result is the request that registers no address
    /// at all.
    pub fn clear_tunnel_addresses(&mut self) -> (request: Request)
        ensures
            final(self)@ == (SplitTunnelView {
                route_change_callback: false,
                setup: SetupPhase::Idle,
                ..old(self)@
            }),
            request@ == RequestView::RegisterIps(InterfaceAddresses::none()),
    {
        self.route_change_callback = false;
        self.setup = SetupPhase::Idle;
        Request::RegisterIps(InterfaceAddresses::default())
    }

    /// Winds the controller down. The result says whether the thread that
    /// reads driver events is to be told to quit (it is not waited for: it
    /// may hang in the driver), and holds the request that leaves the driver
    /// without excluded applications.
    pub fn shutdown(&mut self) -> (last: (bool, Request))
        ensures
            final(self)@ == (SplitTunnelView { event_thread: false, ..old(self)@ }),
            last.0 == old(self)@.event_thread,
            last.1@ == RequestView::SetPaths(Seq::empty()),
    {
        let signal_quit: bool = self.event_thread;
        self.event_thread = false;
        let request = Request::SetPaths(Vec::new());
        proof {
            assert(paths_of(Seq::<Vec<u16>>::empty()) =~= Seq::empty());
        }
        (signal_quit, request)
    }
}

/// The controller after a call that begins an update of the paths that
/// nobody waits for, and what the call gives: the request to send, or the
/// refusal while an earlier such update is under way.
pub open spec fn begin_path_update(controller: SplitTunnelView, paths: Seq<Seq<u16>>) -> (
    SplitTunnelView,
    Result<RequestView, Error>,
) {
    (
        SplitTunnelView { async_path_update_in_progress: true, ..controller },
        if controller.async_path_update_in_progress {
            Err(Error::AlreadySettingPaths)
        } else {
            Ok(RequestView::SetPaths(paths))
        },
    )
}

/// The controller after the end of an update of the paths.
pub open spec fn end_path_update(controller: SplitTunnelView) -> SplitTunnelView {
    SplitTunnelView { async_path_update_in_progress: false, ..controller }
}

/// What a call that begins an update gave, as a mathematical value.
pub open spec fn begun_view(request: Result<Request, Error>) -> Result<RequestView, Error> {
    match request {
        Ok(request) => Ok(request@),
        Err(error) => Err(error),
    }
}

/// The handler of route changes that was registered for an earlier tunnel is
/// dropped before anything else is done for a new one, and a new handler is
/// kept only where the whole setting succeeded: after any step that ends the
/// setting, a handler is kept exactly if the step ended it with success.
pub proof fn lemma_route_callback_is_kept_after_success(
    controller: SplitTunnelView,
    addresses: InterfaceAddresses,
    event: SetupEvent,
)
    requires
        setup_awaits(controller.setup, event),
        !controller.route_change_callback,
    ensures
        ({
            let next = setup_step(controller, addresses, event);
            &&& next.2 is Done <==> next.0.setup == SetupPhase::Idle
            &&& next.0.route_change_callback <==> next.2 == SetupActionView::Done(Ok(()))
        }),
{
}

/// Of two overlapping updates of the paths, the second is
/// refused and makes no request, whatever the controller's state before the
/// first and whether or not the first was admitted. Once the update under
/// way is done, the next is admitted.
pub proof fn lemma_overlapping_path_updates_are_refused(
    controller: SplitTunnelView,
    first: Seq<Seq<u16>>,
    second: Seq<Seq<u16>>,
)
    ensures
        ({
            let begun = begin_path_update(controller, first).0;
            &&& begin_path_update(begun, second).1 == Err::<RequestView, Error>(
                Error::AlreadySettingPaths,
            )
            &&& begin_path_update(begun, second).0 == begun
            &&& begin_path_update(end_path_update(begun), second).1 == Ok::<RequestView, Error>(
                RequestView::SetPaths(second),
            )
        }),
{
}

} // verus!
