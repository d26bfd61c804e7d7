//! The step from version 5 of the settings to version 6, as far as it
//! decides anything: which fields change, and to what.
use vstd::prelude::*;

verus! {

/// The version of the settings that this step starts from.
pub const SETTINGS_VERSION_V5: u64 = 5;

/// The version of the settings that this step arrives at.
pub const SETTINGS_VERSION_V6: u64 = 6;

/// Representation of a transport protocol, either UDP or TCP.
#[derive(Clone, Copy, Debug, PartialEq, Eq, Hash, Structural)]
pub enum TransportProtocol {
    /// Represents the UDP transport protocol.
    Udp,
    /// Represents the TCP transport protocol.
    Tcp,
}

/// Limits a setting to one value, or leaves it open.
#[derive(Clone, Copy, Debug, PartialEq, Eq, Structural)]
pub enum Constraint<T> {
    Any,
    Only(T),
}

/// A port together with the protocol to reach it by.
#[derive(Clone, Copy, Debug, PartialEq, Eq, Structural)]
pub struct TransportPort {
    pub protocol: TransportProtocol,
    pub port: Constraint<u16>,
}

/// Which obfuscation to use.
#[derive(Clone, Copy, Debug, PartialEq, Eq, Structural)]
pub enum SelectedObfuscation {
    Auto,
    Off,
    Udp2Tcp,
}

impl Default for SelectedObfuscation {
    fn default() -> (selected: SelectedObfuscation)
        ensures
            selected == SelectedObfuscation::Auto,
    {
        SelectedObfuscation::Auto
    }
}

/// Settings of the obfuscation that wraps UDP in TCP.
#[derive(Clone, Copy, Debug, PartialEq, Eq, Structural)]
pub struct Udp2TcpObfuscationSettings {
    pub port: Constraint<u16>,
}

/// Contains obfuscation settings.
#[derive(Clone, Copy, Debug, PartialEq, Eq, Structural)]
pub struct ObfuscationSettings {
    pub selected_obfuscation: SelectedObfuscation,
    pub udp2tcp: Udp2TcpObfuscationSettings,
}

/// What to do about the entry location of the WireGuard constraints.
#[derive(Clone, Copy, Debug, PartialEq, Eq, Structural)]
pub enum EntryLocationFix {
    /// Leave the constraints as they are.
    Keep,
    /// Remove the entry location: it is null, which is no longer valid.
    RemoveEntryLocation,
    /// Switch multihop on: an entry location was chosen before there was a
    /// switch.
    EnableMultihop,
}

/// Whether the settings are of the version that this step starts from.
/// `settings_version` is the version that the settings name, if they name
/// one.
pub fn version_matches(settings_version: Option<u64>) -> (matches: bool)
    ensures
        matches == (settings_version == Some(SETTINGS_VERSION_V5)),
{
    match settings_version {
        Some(version) => version == SETTINGS_VERSION_V5,
        None => false,
    }
}

/// Says what to do about the entry location. `entry_location_is_null` tells
/// whether the entry location is null, if there is one; `has_use_multihop`
/// whether the switch for multihop is there already.
///
/// Nothing changes where there is no entry location or the switch is
/// there. Else a null entry location is removed, and any other switches
/// multihop on.
pub fn entry_location_fix(entry_location_is_null: Option<bool>, has_use_multihop: bool) -> (fix:
    EntryLocationFix)
    ensures
        fix == match entry_location_is_null {
            None => EntryLocationFix::Keep,
            Some(is_null) => if has_use_multihop {
                EntryLocationFix::Keep
            } else if is_null {
                EntryLocationFix::RemoveEntryLocation
            } else {
                EntryLocationFix::EnableMultihop
            },
        },
{
    match entry_location_is_null {
        None => EntryLocationFix::Keep,
        Some(is_null) => {
            if has_use_multihop {
                EntryLocationFix::Keep
            } else if is_null {
                EntryLocationFix::RemoveEntryLocation
            } else {
                EntryLocationFix::EnableMultihop
            }
        },
    }
}

/// Create the obfuscation settings that replace the TCP setting that was
/// used on the WireGuard constraints. If a port is specified, this is the
/// remote port to be used for the obfuscation.
pub fn create_migrated_obfuscation_settings(port: Constraint<u16>) -> (settings:
    ObfuscationSettings)
    ensures
        settings == (ObfuscationSettings {
            selected_obfuscation: SelectedObfuscation::Udp2Tcp,
            udp2tcp: Udp2TcpObfuscationSettings { port },
        }),
{
    ObfuscationSettings {
        selected_obfuscation: SelectedObfuscation::Udp2Tcp,
        udp2tcp: Udp2TcpObfuscationSettings { port },
    }
}

/// What becomes of the port of the WireGuard constraints: the new port
/// constraint, and the obfuscation settings to store, if any. `None` where
/// the old constraint leaves the port open and nothing changes.
///
/// A UDP port stays the port. A TCP port moves into the settings of the
/// obfuscation that wraps UDP in TCP, which is switched on, and the port
/// itself is left open.
pub fn migrate_port(port: Constraint<TransportPort>) -> (migrated: Option<
    (Constraint<u16>, Option<ObfuscationSettings>),
>)
    ensures
        migrated == match port {
            Constraint::Any => None,
            Constraint::Only(transport_port) => Some(
                match transport_port.protocol {
                    TransportProtocol::Udp => (transport_port.port, None),
                    TransportProtocol::Tcp => (
                        Constraint::Any,
                        Some(
                            ObfuscationSettings {
                                selected_obfuscation: SelectedObfuscation::Udp2Tcp,
                                udp2tcp: Udp2TcpObfuscationSettings { port: transport_port.port },
                            },
                        ),
                    ),
                },
            ),
        },
{
    match port {
        Constraint::Any => None,
        Constraint::Only(transport_port) => match transport_port.protocol {
            TransportProtocol::Udp => Some((transport_port.port, None)),
            TransportProtocol::Tcp => Some(
                (
                    Constraint::Any,
                    Some(create_migrated_obfuscation_settings(transport_port.port)),
                ),
            ),
        },
    }
}

/// Whether two keys are the same, byte for byte.
pub fn same_key(left: &Vec<u8>, right: &Vec<u8>) -> (same: bool)
    ensures
        same == (left@ == right@),
{
    if left.len() != right.len() {
        return false;
    }
    let mut i: usize = 0;
    while i < left.len()
        invariant
            i <= left@.len(),
            left@.len() == right@.len(),
            forall|k: int| 0 <= k < i ==> left@[k] == right@[k],
        decreases left@.len() - i,
    {
        if left[i] != right[i] {
            return false;
        }
        i += 1;
    }
    proof {
        assert(left@ =~= right@);
    }
    true
}

/// Finds the device that the stored WireGuard key belongs to: the first
/// among the account's devices whose public key is `key`. Where there is
/// none, the key is of no use any more, and a new device is to be made.
pub fn device_with_key(device_keys: &Vec<Vec<u8>>, key: &Vec<u8>) -> (found: Option<usize>)
    ensures
        match found {
            Some(i) => {
                &&& i < device_keys@.len()
                &&& device_keys@[i as int]@ == key@
                &&& forall|k: int| 0 <= k < i ==> device_keys@[k]@ != key@
            },
            None => forall|k: int| 0 <= k < device_keys@.len() ==> device_keys@[k]@ != key@,
        },
{
    let mut i: usize = 0;
    while i < device_keys.len()
        invariant
            i <= device_keys@.len(),
            forall|k: int| 0 <= k < i ==> device_keys@[k]@ != key@,
        decreases device_keys@.len() - i,
    {
        if same_key(&device_keys[i], key) {
            return Some(i);
        }
        i += 1;
    }
    None
}

} // verus!
