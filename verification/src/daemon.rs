//! Decisions of the daemon's start.
use vstd::prelude::*;

verus! {

/// What the daemon is started to do.
#[derive(Clone, Copy, Debug, PartialEq, Eq, Structural)]
pub enum PlatformAction {
    /// Run as a system service.
    RunService,
    /// Restart the system service.
    RestartService,
    /// Install the system service.
    InstallService,
    /// Run in the foreground.
    RunStandalone,
}

/// Whether the daemon runs with administrator rights. `uid` is the id of
/// the user it runs as, on a system that has such ids; the user with id
/// zero is the administrator. On a system without them the answer is yes.
pub fn running_as_admin(uid: Option<u32>) -> (admin: bool)
    ensures
        admin == match uid {
            Some(id) => id == 0,
            None => true,
        },
{
    match uid {
        Some(id) => id == 0,
        None => true,
    }
}

/// Picks what the daemon does from its command line: the first of running
/// as a service, restarting the service and installing the service that was
/// asked for, and running in the foreground if none was.
pub fn run_platform(run_as_service: bool, restart_service: bool, register_service: bool) -> (action:
    PlatformAction)
    ensures
        action == if run_as_service {
            PlatformAction::RunService
        } else if restart_service {
            PlatformAction::RestartService
        } else if register_service {
            PlatformAction::InstallService
        } else {
            PlatformAction::RunStandalone
        },
{
    if run_as_service {
        PlatformAction::RunService
    } else if restart_service {
        PlatformAction::RestartService
    } else if register_service {
        PlatformAction::InstallService
    } else {
        PlatformAction::RunStandalone
    }
}

/// The code with which the process exits: zero after success, one after
/// failure.
pub fn exit_code(succeeded: bool) -> (code: i32)
    ensures
        code == if succeeded {
            0i32
        } else {
            1i32
        },
{
    if succeeded {
        0
    } else {
        1
    }
}

} // verus!
