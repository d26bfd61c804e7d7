//! The request thread: the one place from which the driver's configuration
//! is changed.
//!
//! Requests are served one at a time, each to its end, in the order in which
//! they arrive. Serving a request takes up to three pieces of outside work;
//! between them the thread waits in a phase of its own. Only when the reply
//! has been given does the next request begin.
use crate::addresses::InterfaceAddresses;
use crate::config::{config_bytes, paths_of};
use crate::device::{
    config_plan, mounted_paths, resolution_failure, resolutions_of, DeviceHandle, IoctlRequest,
    IoctlRequestView, OpenPhase,
};
use crate::error::{Error, IoError, IoErrorKind};
use crate::ioctl::DriverIoctlCode;
use vstd::prelude::*;

verus! {

/// Seconds that a sender waits for the reply to its request.
pub const REQUEST_TIMEOUT_SECS: u64 = 5;

/// What the request thread is asked to do.
#[derive(Clone, Debug, PartialEq, Eq)]
pub enum Request {
    /// Exclude the applications at these paths, and no others.
    SetPaths(Vec<Vec<u16>>),
    /// Redirect between these addresses.
    RegisterIps(InterfaceAddresses),
}

/// A request as a mathematical value.
pub enum RequestView {
    SetPaths(Seq<Seq<u16>>),
    RegisterIps(InterfaceAddresses),
}

impl View for Request {
    type V = RequestView;

    open spec fn view(&self) -> RequestView {
        match self {
            Request::SetPaths(paths) => RequestView::SetPaths(paths_of(paths@)),
            Request::RegisterIps(addresses) => RequestView::RegisterIps(*addresses),
        }
    }
}

/// What the request thread waits for.
#[derive(Clone, Copy, Debug, PartialEq, Eq, Structural)]
pub enum ServerPhase {
    /// The next request.
    Idle,
    /// The device paths of the applications to exclude.
    ResolvingPaths,
    /// The end of the operation that sets or clears the configuration.
    ConfiguringDriver,
    /// The path monitor's word that it watches the new paths.
    UpdatingPathMonitor,
    /// The end of the operation that registers these addresses.
    RegisteringIps(InterfaceAddresses),
}

/// What happened outside the request thread.
#[derive(Debug, PartialEq, Eq)]
pub enum ServerEvent {
    /// A request arrived.
    Request(Request),
    /// The paths of the request were resolved to device paths, each for
    /// itself.
    Resolved(Vec<Result<Vec<u16>, IoError>>),
    /// The control operation ended.
    Ioctl(Result<(), IoError>),
    /// The path monitor took the new paths, or failed to.
    MonitorUpdated(Result<(), IoError>),
}

/// An event as a mathematical value.
pub enum ServerEventView {
    Request(RequestView),
    Resolved(Seq<Result<Seq<u16>, IoError>>),
    Ioctl(Result<(), IoError>),
    MonitorUpdated(Result<(), IoError>),
}

impl View for ServerEvent {
    type V = ServerEventView;

    open spec fn view(&self) -> ServerEventView {
        match self {
            ServerEvent::Request(request) => ServerEventView::Request(request@),
            ServerEvent::Resolved(resolved) => ServerEventView::Resolved(resolutions_of(resolved@)),
            ServerEvent::Ioctl(outcome) => ServerEventView::Ioctl(*outcome),
            ServerEvent::MonitorUpdated(outcome) => ServerEventView::MonitorUpdated(*outcome),
        }
    }
}

/// The outside work that the request thread asks for.
#[derive(Debug, PartialEq, Eq)]
pub enum ServerAction {
    /// Resolve the paths of the request in hand to device paths.
    ResolvePaths,
    /// Perform a control operation. `dump_routes` asks to log the routing
    /// table first: the internet's IPv4 address is about to change to a new
    /// one.
    Ioctl { request: IoctlRequest, dump_routes: bool },
    /// Hand the paths of the request in hand to the path monitor.
    UpdatePathMonitor,
    /// Reply to the request. The next request may begin.
    Respond(Result<(), Error>),
}

/// A piece of outside work as a mathematical value.
pub enum ServerActionView {
    ResolvePaths,
    Ioctl { request: IoctlRequestView, dump_routes: bool },
    UpdatePathMonitor,
    Respond(Result<(), Error>),
}

impl View for ServerAction {
    type V = ServerActionView;

    open spec fn view(&self) -> ServerActionView {
        match self {
            ServerAction::ResolvePaths => ServerActionView::ResolvePaths,
            ServerAction::Ioctl { request, dump_routes } => ServerActionView::Ioctl {
                request: request@,
                dump_routes: *dump_routes,
            },
            ServerAction::UpdatePathMonitor => ServerActionView::UpdatePathMonitor,
            ServerAction::Respond(outcome) => ServerActionView::Respond(*outcome),
        }
    }
}

/// The request thread as a mathematical value.
pub struct RequestThreadView {
    /// The addresses that the driver was last given.
    pub previous_addresses: InterfaceAddresses,
    pub phase: ServerPhase,
    /// The paths of the request in hand, while it is one that sets paths.
    pub paths: Seq<Seq<u16>>,
}

/// The request thread after an event, the monitored paths after it, and the
/// work that the thread asks for.
pub struct Served {
    pub thread: RequestThreadView,
    pub monitored: Seq<Seq<u16>>,
    pub action: ServerActionView,
}

/// Whether `event` is the kind of event that `phase` waits for.
pub open spec fn awaited(phase: ServerPhase, event: ServerEventView) -> bool {
    match phase {
        ServerPhase::Idle => event is Request,
        ServerPhase::ResolvingPaths => event is Resolved,
        ServerPhase::ConfiguringDriver | ServerPhase::RegisteringIps(_) => event is Ioctl,
        ServerPhase::UpdatingPathMonitor => event is MonitorUpdated,
    }
}

/// Whether the routing table is to be logged before `next` is registered
/// in place of `previous`: the internet's IPv4 address changes to a new one.
pub open spec fn route_dump_wanted(previous: InterfaceAddresses, next: InterfaceAddresses) -> bool {
    previous.internet_ipv4 != next.internet_ipv4 && next.internet_ipv4.is_some()
}

/// The thread back at rest, with `outcome` as the reply.
pub open spec fn replied(
    thread: RequestThreadView,
    monitored: Seq<Seq<u16>>,
    outcome: Result<(), Error>,
) -> Served {
    Served {
        thread: RequestThreadView { phase: ServerPhase::Idle, paths: Seq::empty(), ..thread },
        monitored,
        action: ServerActionView::Respond(outcome),
    }
}

/// What the request thread does on an event.
///
/// A request to set paths clears the configuration if it names no path;
/// else its paths are resolved, and the configuration is set to those that
/// resolve, or cleared if none does. Once the driver has taken that, the
/// path monitor gets the paths: if it takes them they are the monitored
/// paths from now on, if not none is, and the request has succeeded either
/// way.
///
/// A request to register addresses loses its tunnel addresses if it names
/// no internet address. If the addresses are those that the driver was last
/// given, the request succeeds without any operation. Else they are
/// registered, and remembered once the driver has taken them.
pub open spec fn serve(
    thread: RequestThreadView,
    monitored: Seq<Seq<u16>>,
    event: ServerEventView,
) -> Served {
    match (thread.phase, event) {
        (ServerPhase::Idle, ServerEventView::Request(RequestView::SetPaths(paths))) => {
            if paths.len() > 0 {
                Served {
                    thread: RequestThreadView { phase: ServerPhase::ResolvingPaths, paths, ..thread },
                    monitored,
                    action: ServerActionView::ResolvePaths,
                }
            } else {
                Served {
                    thread: RequestThreadView {
                        phase: ServerPhase::ConfiguringDriver,
                        paths,
                        ..thread
                    },
                    monitored,
                    action: ServerActionView::Ioctl {
                        request: IoctlRequestView::bare(DriverIoctlCode::ClearConfiguration),
                        dump_routes: false,
                    },
                }
            }
        },
        (ServerPhase::ResolvingPaths, ServerEventView::Resolved(resolved)) => {
            match config_plan(resolved) {
                Err(error) => replied(thread, monitored, Err(Error::SetConfiguration(error))),
                Ok(request) => Served {
                    thread: RequestThreadView { phase: ServerPhase::ConfiguringDriver, ..thread },
                    monitored,
                    action: ServerActionView::Ioctl { request, dump_routes: false },
                },
            }
        },
        (ServerPhase::ConfiguringDriver, ServerEventView::Ioctl(Err(error))) => replied(
            thread,
            monitored,
            Err(Error::SetConfiguration(error)),
        ),
        (ServerPhase::ConfiguringDriver, ServerEventView::Ioctl(Ok(()))) => Served {
            thread: RequestThreadView { phase: ServerPhase::UpdatingPathMonitor, ..thread },
            monitored,
            action: ServerActionView::UpdatePathMonitor,
        },
        (ServerPhase::UpdatingPathMonitor, ServerEventView::MonitorUpdated(Ok(()))) => replied(
            thread,
            thread.paths,
            Ok(()),
        ),
        (ServerPhase::UpdatingPathMonitor, ServerEventView::MonitorUpdated(Err(_))) => replied(
            thread,
            Seq::empty(),
            Ok(()),
        ),
        (ServerPhase::Idle, ServerEventView::Request(RequestView::RegisterIps(addresses))) => {
            let ips = addresses.spec_normalized();
            if thread.previous_addresses == ips {
                replied(thread, monitored, Ok(()))
            } else {
                Served {
                    thread: RequestThreadView { phase: ServerPhase::RegisteringIps(ips), ..thread },
                    monitored,
                    action: ServerActionView::Ioctl {
                        request: IoctlRequestView::sending(
                            DriverIoctlCode::RegisterIpAddresses,
                            ips.wire_bytes(),
                        ),
                        dump_routes: route_dump_wanted(thread.previous_addresses, ips),
                    },
                }
            }
        },
        (ServerPhase::RegisteringIps(ips), ServerEventView::Ioctl(Ok(()))) => replied(
            RequestThreadView { previous_addresses: ips, ..thread },
            monitored,
            Ok(()),
        ),
        (ServerPhase::RegisteringIps(_), ServerEventView::Ioctl(Err(error))) => replied(
            thread,
            monitored,
            Err(Error::RegisterIps(error)),
        ),
        _ => Served { thread, monitored, action: ServerActionView::Respond(Ok(())) },
    }
}

/// The request thread: it owns the open device, remembers the addresses that
/// the driver was last given, and holds the request in hand.
#[derive(Debug)]
pub struct RequestThread {
    handle: DeviceHandle,
    previous_addresses: InterfaceAddresses,
    phase: ServerPhase,
    paths: Vec<Vec<u16>>,
}

impl View for RequestThread {
    type V = RequestThreadView;

    closed spec fn view(&self) -> RequestThreadView {
        RequestThreadView {
            previous_addresses: self.previous_addresses,
            phase: self.phase,
            paths: paths_of(self.paths@),
        }
    }
}

impl RequestThread {
    /// Whether the thread is in order: its device is open, and the
    /// addresses that it remembers are such as are sent.
    pub closed spec fn wf(&self) -> bool {
        &&& self.handle@ == OpenPhase::Open
        &&& self.previous_addresses.spec_is_consistent()
        &&& match self.phase {
            ServerPhase::RegisteringIps(ips) => ips.spec_is_consistent(),
            _ => true,
        }
    }

    /// A request thread for an open device. The driver has no addresses
    /// yet, and no request is in hand.
    pub fn new(handle: DeviceHandle) -> (thread: RequestThread)
        requires
            handle.spec_is_open(),
        ensures
            thread.wf(),
            thread@ == (RequestThreadView {
                previous_addresses: InterfaceAddresses::none(),
                phase: ServerPhase::Idle,
                paths: Seq::empty(),
            }),
    {
        let thread = RequestThread {
            handle,
            previous_addresses: InterfaceAddresses::default(),
            phase: ServerPhase::Idle,
            paths: Vec::new(),
        };
        proof {
            assert(paths_of(thread.paths@) =~= Seq::empty());
        }
        thread
    }

    /// What the thread waits for.
    pub fn phase(&self) -> (phase: ServerPhase)
        ensures
            phase == self@.phase,
    {
        self.phase
    }

    /// Whether the thread is at rest and takes the next request.
    pub fn is_idle(&self) -> (idle: bool)
        ensures
            idle == (self@.phase == ServerPhase::Idle),
    {
        match self.phase {
            ServerPhase::Idle => true,
            _ => false,
        }
    }

    /// The addresses that the driver was last given.
    pub fn previous_addresses(&self) -> (addresses: InterfaceAddresses)
        ensures
            addresses == self@.previous_addresses,
    {
        self.previous_addresses
    }

    /// The paths of the request in hand.
    pub fn paths(&self) -> (paths: &Vec<Vec<u16>>)
        ensures
            paths_of(paths@) == self@.paths,
    {
        &self.paths
    }

    /// Takes an event and says what to do next. `monitored` are the paths
    /// that the path monitor's thread resolves anew when volumes come and
    /// go; the caller holds their lock for as long as a request to set paths
    /// is in hand.
    pub fn handle(&mut self, monitored: &mut Vec<Vec<u16>>, event: ServerEvent) -> (action:
        ServerAction)
        requires
            old(self).wf(),
            awaited(old(self)@.phase, event@),
        ensures
            final(self).wf(),
            (Served {
                thread: final(self)@,
                monitored: paths_of(final(monitored)@),
                action: action@,
            }) == serve(old(self)@, paths_of(old(monitored)@), event@),
    {
        match event {
            ServerEvent::Request(Request::SetPaths(paths)) => {
                self.paths = paths;
                if self.paths.len() > 0 {
                    self.phase = ServerPhase::ResolvingPaths;
                    ServerAction::ResolvePaths
                } else {
                    self.phase = ServerPhase::ConfiguringDriver;
                    ServerAction::Ioctl { request: self.handle.clear_config(), dump_routes: false }
                }
            },
            ServerEvent::Resolved(resolved) => match self.handle.set_config(&resolved) {
                Err(error) => self.reply(Err(Error::SetConfiguration(error))),
                Ok(request) => {
                    self.phase = ServerPhase::ConfiguringDriver;
                    ServerAction::Ioctl { request, dump_routes: false }
                },
            },
            ServerEvent::Ioctl(outcome) => match self.phase {
                ServerPhase::RegisteringIps(ips) => match outcome {
                    Ok(()) => {
                        self.previous_addresses = ips;
                        self.reply(Ok(()))
                    },
                    Err(error) => self.reply(Err(Error::RegisterIps(error))),
                },
                _ => match outcome {
                    Ok(()) => {
                        self.phase = ServerPhase::UpdatingPathMonitor;
                        ServerAction::UpdatePathMonitor
                    },
                    Err(error) => self.reply(Err(Error::SetConfiguration(error))),
                },
            },
            ServerEvent::MonitorUpdated(outcome) => {
                match outcome {
                    Ok(()) => {
                        core::mem::swap(monitored, &mut self.paths);
                    },
                    Err(_) => {
                        monitored.clear();
                    },
                }
                proof {
                    assert(outcome is Err ==> paths_of(monitored@) =~= Seq::empty());
                }
                self.reply(Ok(()))
            },
            ServerEvent::Request(Request::RegisterIps(addresses)) => {
                let ips: InterfaceAddresses = addresses.normalized();
                if self.previous_addresses == ips {
                    self.reply(Ok(()))
                } else {
                    let dump_routes: bool = self.previous_addresses.internet_ipv4
                        != ips.internet_ipv4 && ips.internet_ipv4.is_some();
                    self.phase = ServerPhase::RegisteringIps(ips);
                    ServerAction::Ioctl {
                        request: self.handle.register_ips(
                            ips.tunnel_ipv4,
                            ips.tunnel_ipv6,
                            ips.internet_ipv4,
                            ips.internet_ipv6,
                        ),
                        dump_routes,
                    }
                }
            },
        }
    }

    /// A copy of the thread's handle of the open device, for the thread
    /// that sets the configuration anew when volumes come and go.
    pub fn device(&self) -> (handle: DeviceHandle)
        requires
            self.wf(),
        ensures
            handle.spec_is_open(),
    {
        self.handle
    }

    /// Puts the thread back at rest, with `outcome` as the reply.
    fn reply(&mut self, outcome: Result<(), Error>) -> (action: ServerAction)
        requires
            old(self).handle@ == OpenPhase::Open,
            old(self).previous_addresses.spec_is_consistent(),
        ensures
            final(self).wf(),
            final(self)@ == (RequestThreadView {
                phase: ServerPhase::Idle,
                paths: Seq::empty(),
                ..old(self)@
            }),
            action@ == ServerActionView::Respond(outcome),
    {
        self.phase = ServerPhase::Idle;
        self.paths = Vec::new();
        proof {
            assert(paths_of(self.paths@) =~= Seq::empty());
        }
        ServerAction::Respond(outcome)
    }
}

/// No tunnel address is registered without an internet address: whenever
/// the thread asks for the operation that registers addresses, the
/// addresses are those of the request without tunnel addresses where it
/// names no internet address.
pub proof fn lemma_registered_addresses_are_consistent(
    thread: RequestThreadView,
    monitored: Seq<Seq<u16>>,
    event: ServerEventView,
)
    requires
        awaited(thread.phase, event),
    ensures
        match serve(thread, monitored, event).action {
            ServerActionView::Ioctl { request, .. } => request.code
                == DriverIoctlCode::RegisterIpAddresses ==> {
                &&& event matches ServerEventView::Request(RequestView::RegisterIps(addresses))
                &&& request.input == Some(addresses.spec_normalized().wire_bytes())
                &&& addresses.spec_normalized().spec_is_consistent()
            },
            _ => true,
        },
{
}

/// The same addresses are registered once: of two requests in a row to
/// register the same addresses, the second never leads to an operation. If
/// the first led to one and the driver took it, the second is answered at
/// once; if the first led to none, so does the second.
pub proof fn lemma_same_addresses_register_once(
    thread: RequestThreadView,
    monitored: Seq<Seq<u16>>,
    addresses: InterfaceAddresses,
)
    requires
        thread.phase == ServerPhase::Idle,
    ensures
        ({
            let request = ServerEventView::Request(RequestView::RegisterIps(addresses));
            let first = serve(thread, monitored, request);
            let registered = serve(first.thread, first.monitored, ServerEventView::Ioctl(Ok(())));
            &&& first.action is Ioctl <==> thread.previous_addresses
                != addresses.spec_normalized()
            &&& first.action is Ioctl ==> registered.action == ServerActionView::Respond(Ok(()))
                && serve(registered.thread, registered.monitored, request) == replied(
                registered.thread,
                registered.monitored,
                Ok(()),
            )
            &&& !(first.action is Ioctl) ==> first == replied(thread, monitored, Ok(()))
                && serve(first.thread, first.monitored, request).action
                == ServerActionView::Respond(Ok(()))
        }),
{
}

/// A request to set no paths clears the configuration.
pub proof fn lemma_no_paths_clears_configuration(thread: RequestThreadView, monitored: Seq<Seq<u16>>)
    requires
        thread.phase == ServerPhase::Idle,
    ensures
        serve(
            thread,
            monitored,
            ServerEventView::Request(RequestView::SetPaths(Seq::empty())),
        ).action == (ServerActionView::Ioctl {
            request: IoctlRequestView::bare(DriverIoctlCode::ClearConfiguration),
            dump_routes: false,
        }),
{
}

/// The operation that sets the configuration is never
/// asked for without a path. Whenever the thread asks for it, at least one
/// path of the request resolved, and the operation's input is the
/// configuration of the paths that did.
pub proof fn lemma_set_configuration_has_entries(
    thread: RequestThreadView,
    monitored: Seq<Seq<u16>>,
    event: ServerEventView,
)
    requires
        awaited(thread.phase, event),
    ensures
        match serve(thread, monitored, event).action {
            ServerActionView::Ioctl { request, .. } => request.code
                == DriverIoctlCode::SetConfiguration ==> {
                &&& event matches ServerEventView::Resolved(resolved)
                &&& mounted_paths(resolved, resolved.len() as int).len() > 0
                &&& request.input == Some(
                    config_bytes(mounted_paths(resolved, resolved.len() as int)),
                )
            },
            _ => true,
        },
{
}

/// Whether none of the first `n` paths resolved, each for want of a mounted
/// volume.
pub open spec fn all_unmounted(resolved: Seq<Result<Seq<u16>, IoError>>, n: int) -> bool {
    forall|i: int|
        0 <= i < n ==> (#[trigger] resolved[i] matches Err(error) && error.spec_kind()
            == IoErrorKind::NotFound)
}

/// Where every path of a request is on a volume that
/// is not mounted, the configuration is cleared.
pub proof fn lemma_unmounted_paths_clear_configuration(resolved: Seq<Result<Seq<u16>, IoError>>)
    requires
        all_unmounted(resolved, resolved.len() as int),
    ensures
        config_plan(resolved) == Ok::<IoctlRequestView, IoError>(
            IoctlRequestView::bare(DriverIoctlCode::ClearConfiguration),
        ),
{
    lemma_unmounted_prefix(resolved, resolved.len() as int);
}

proof fn lemma_unmounted_prefix(resolved: Seq<Result<Seq<u16>, IoError>>, n: int)
    requires
        0 <= n <= resolved.len(),
        all_unmounted(resolved, n),
    ensures
        resolution_failure(resolved, n) is None,
        mounted_paths(resolved, n).len() == 0,
    decreases n,
{
    if n > 0 {
        assert(resolved[n - 1] is Err);
        lemma_unmounted_prefix(resolved, n - 1);
    }
}

/// The thread takes the next request exactly when it has replied to the
/// last: a reply, whatever it says and whether or not anybody still waits
/// for it, leaves the thread at rest.
pub proof fn lemma_reply_frees_thread(
    thread: RequestThreadView,
    monitored: Seq<Seq<u16>>,
    event: ServerEventView,
)
    requires
        awaited(thread.phase, event),
    ensures
        serve(thread, monitored, event).action is Respond <==> serve(
            thread,
            monitored,
            event,
        ).thread.phase == ServerPhase::Idle,
{
}

/// The request thread and the monitored paths after a run of events.
pub open spec fn state_after(
    thread: RequestThreadView,
    monitored: Seq<Seq<u16>>,
    events: Seq<ServerEventView>,
) -> (RequestThreadView, Seq<Seq<u16>>)
    decreases events.len(),
{
    if events.len() == 0 {
        (thread, monitored)
    } else {
        let before = state_after(thread, monitored, events.drop_last());
        let served = serve(before.0, before.1, events.last());
        (served.thread, served.monitored)
    }
}

/// The control operations that the thread asks for during a run of events,
/// in the order in which it asks for them.
pub open spec fn operations(
    thread: RequestThreadView,
    monitored: Seq<Seq<u16>>,
    events: Seq<ServerEventView>,
) -> Seq<IoctlRequestView>
    decreases events.len(),
{
    if events.len() == 0 {
        Seq::empty()
    } else {
        let before = state_after(thread, monitored, events.drop_last());
        let earlier = operations(thread, monitored, events.drop_last());
        match serve(before.0, before.1, events.last()).action {
            ServerActionView::Ioctl { request, .. } => earlier.push(request),
            _ => earlier,
        }
    }
}

/// Requests are served in the order of their arrival: the operations of a
/// run of events are those of its first part, followed by those of the rest
/// served from where the first part left the thread. Nothing that belongs
/// to a later request is issued before what belongs to an earlier one.
pub proof fn lemma_operations_keep_order(
    thread: RequestThreadView,
    monitored: Seq<Seq<u16>>,
    first: Seq<ServerEventView>,
    second: Seq<ServerEventView>,
)
    ensures
        state_after(thread, monitored, first + second) == state_after(
            state_after(thread, monitored, first).0,
            state_after(thread, monitored, first).1,
            second,
        ),
        operations(thread, monitored, first + second) == operations(thread, monitored, first)
            + operations(
            state_after(thread, monitored, first).0,
            state_after(thread, monitored, first).1,
            second,
        ),
    decreases second.len(),
{
    let middle = state_after(thread, monitored, first);
    if second.len() == 0 {
        assert(first + second =~= first);
        assert(operations(thread, monitored, first) + Seq::<IoctlRequestView>::empty()
            =~= operations(thread, monitored, first));
    } else {
        assert((first + second).drop_last() =~= first + second.drop_last());
        assert((first + second).last() == second.last());
        lemma_operations_keep_order(thread, monitored, first, second.drop_last());
        let before = state_after(middle.0, middle.1, second.drop_last());
        let earlier = operations(middle.0, middle.1, second.drop_last());
        match serve(before.0, before.1, second.last()).action {
            ServerActionView::Ioctl { request, .. } => {
                assert((operations(thread, monitored, first) + earlier).push(request)
                    =~= operations(thread, monitored, first) + earlier.push(request));
            },
            _ => {},
        }
    }
}

/// How the wait for a reply ended.
#[derive(Clone, Copy, Debug, PartialEq, Eq)]
pub enum ReplyWait {
    /// The reply came.
    Received(Result<(), Error>),
    /// No reply came in time.
    TimedOut,
    /// The request thread went away without a reply.
    Disconnected,
}

/// What the sender of a request learns: that the thread is down if the
/// request could not be handed over, the reply if one came in time, and
/// else that the thread is stuck.
pub open spec fn spec_request_outcome(delivered: bool, reply: ReplyWait) -> Result<(), Error> {
    if !delivered {
        Err(Error::RequestThreadDown)
    } else {
        match reply {
            ReplyWait::Received(outcome) => outcome,
            ReplyWait::TimedOut | ReplyWait::Disconnected => Err(Error::RequestThreadStuck),
        }
    }
}

/// Says what the sender of a request learns. `delivered` tells whether the
/// request could be handed to the thread; `reply` is how the wait for the
/// reply ended, of at most `REQUEST_TIMEOUT_SECS` seconds.
pub fn send_request_inner(delivered: bool, reply: ReplyWait) -> (outcome: Result<(), Error>)
    ensures
        outcome == spec_request_outcome(delivered, reply),
{
    if !delivered {
        return Err(Error::RequestThreadDown);
    }
    match reply {
        ReplyWait::Received(outcome) => outcome,
        ReplyWait::TimedOut | ReplyWait::Disconnected => Err(Error::RequestThreadStuck),
    }
}

/// Whether the thread that follows the path monitor has anything to do when
/// volumes or paths change: the monitored paths are resolved anew and the
/// configuration set again, unless there are none.
pub fn should_reresolve(monitored: &Vec<Vec<u16>>) -> (wanted: bool)
    ensures
        wanted == (monitored@.len() > 0),
{
    monitored.len() > 0
}

} // verus!
