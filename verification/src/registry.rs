//! Capability resolution against the global registry snapshot.
//!
//! During the initial synchronization the server lists every interface it
//! exposes, with the version it speaks.  Clipboard access needs two of
//! them — the input seat and the data-transfer manager — each within an
//! acceptable version range.  An interface the server never advertised (or
//! advertised only below the acceptable range) is fatal: the session cannot
//! support clipboard sharing, and the failure is surfaced, never retried.

use crate::errors::ClipboardError;
use vstd::prelude::*;
use vstd::string::StringExecFns;

verus! {

/// The lowest interface version this client accepts.
pub const MIN_PROTOCOL_VERSION: u32 = 1;

/// The highest interface version this client speaks.
pub const MAX_PROTOCOL_VERSION: u32 = 10;

/// One interface the server advertised in the global registry: its name
/// and the version the server speaks.
pub struct RegistryEntry {
    pub name: String,
    pub version: u32,
}

/// The first registry entry advertising the given interface name, if any.
pub open spec fn find_interface(s: Seq<RegistryEntry>, name: Seq<char>) -> Option<RegistryEntry>
    decreases s.len(),
{
    if s.len() == 0 {
        None
    } else if s.first().name@ == name {
        Some(s.first())
    } else {
        find_interface(s.drop_first(), name)
    }
}

/// The version at which a discovered interface is bound: the server's
/// advertised version, capped at the highest version this client speaks.
pub open spec fn bound_version(advertised: u32, max: u32) -> u32 {
    if advertised <= max {
        advertised
    } else {
        max
    }
}

/// The outcome of resolving one interface against the registry snapshot:
/// the version to bind when the interface is advertised at or above the
/// acceptable minimum, and nothing otherwise.
pub open spec fn resolution(s: Seq<RegistryEntry>, name: Seq<char>, min: u32, max: u32) -> Option<
    u32,
> {
    match find_interface(s, name) {
        Some(e) => if e.version >= min {
            Some(bound_version(e.version, max))
        } else {
            None
        },
        None => None,
    }
}

/// The advertised version of the named interface, if the registry holds it.
pub fn lookup_version(registry: &Vec<RegistryEntry>, name: &String) -> (r: Option<u32>)
    ensures
        r == match find_interface(registry@, name@) {
            Some(e) => Some(e.version),
            None => None::<u32>,
        },
{
    let mut i: usize = 0;
    proof {
        assert(registry@.skip(0) =~= registry@);
    }
    while i < registry.len()
        invariant
            i <= registry@.len(),
            find_interface(registry@, name@) == find_interface(registry@.skip(i as int), name@),
        decreases registry@.len() - i,
    {
        proof {
            assert(registry@.skip(i as int).first() == registry@[i as int]);
            assert(registry@.skip(i as int).drop_first() =~= registry@.skip(i as int + 1));
        }
        let entry = &registry[i];
        if entry.name == *name {
            return Some(entry.version);
        }
        i = i + 1;
    }
    proof {
        assert(registry@.skip(registry@.len() as int) =~= Seq::<RegistryEntry>::empty());
    }
    None
}

/// Resolve one required interface within a version range, failing with
/// `MissingCapability` naming the interface when the server never
/// advertised it at an acceptable version.
pub fn resolve_interface(
    registry: &Vec<RegistryEntry>,
    name: &String,
    min_version: u32,
    max_version: u32,
) -> (r: Result<u32, ClipboardError>)
    ensures
        (match resolution(registry@, name@, min_version, max_version) {
            Some(v) => r == Ok::<u32, ClipboardError>(v),
            None => r matches Err(ClipboardError::MissingCapability { name: n }) && n@ == name@,
        }),
{
    match lookup_version(registry, name) {
        Some(v) => if v >= min_version {
            if v <= max_version {
                Ok(v)
            } else {
                Ok(max_version)
            }
        } else {
            Err(ClipboardError::MissingCapability { name: name.clone() })
        },
        None => Err(ClipboardError::MissingCapability { name: name.clone() }),
    }
}

/// The registry name of the input seat interface.
pub open spec fn seat_interface_name() -> Seq<char> {
    "wl_seat"@
}

/// The registry name of the data-transfer manager interface.
pub open spec fn manager_interface_name() -> Seq<char> {
    "wl_data_device_manager"@
}

/// The registry name of the input seat interface, as a value.
pub fn seat_interface() -> (s: String)
    ensures
        s@ == seat_interface_name(),
{
    String::from_str("wl_seat")
}

/// The registry name of the data-transfer manager interface, as a value.
pub fn manager_interface() -> (s: String)
    ensures
        s@ == manager_interface_name(),
{
    String::from_str("wl_data_device_manager")
}

/// The two capability bindings clipboard access needs: the versions at
/// which the input seat and the data-transfer manager were bound.  The
/// data device itself is obtained from the manager, bound to the seat.
#[derive(Clone, Copy, Debug, PartialEq, Eq, Structural)]
pub struct Capabilities {
    pub seat_version: u32,
    pub manager_version: u32,
}

/// Resolve every capability clipboard access requires against the registry
/// snapshot.  The seat is resolved first; the first interface missing from
/// the registry (at an acceptable version) decides the error.
pub fn resolve_capabilities(registry: &Vec<RegistryEntry>) -> (r: Result<
    Capabilities,
    ClipboardError,
>)
    ensures
        (match resolution(
            registry@,
            seat_interface_name(),
            MIN_PROTOCOL_VERSION,
            MAX_PROTOCOL_VERSION,
        ) {
            None => r matches Err(ClipboardError::MissingCapability { name: n }) && n@
                == seat_interface_name(),
            Some(sv) => match resolution(
                registry@,
                manager_interface_name(),
                MIN_PROTOCOL_VERSION,
                MAX_PROTOCOL_VERSION,
            ) {
                None => r matches Err(ClipboardError::MissingCapability { name: n }) && n@
                    == manager_interface_name(),
                Some(mv) => r matches Ok(c) && c.seat_version == sv && c.manager_version == mv,
            },
        }),
{
    let seat_name = seat_interface();
    let seat_version = match resolve_interface(
        registry,
        &seat_name,
        MIN_PROTOCOL_VERSION,
        MAX_PROTOCOL_VERSION,
    ) {
        Ok(v) => v,
        Err(e) => {
            return Err(e);
        },
    };
    let manager_name = manager_interface();
    let manager_version = match resolve_interface(
        registry,
        &manager_name,
        MIN_PROTOCOL_VERSION,
        MAX_PROTOCOL_VERSION,
    ) {
        Ok(v) => v,
        Err(e) => {
            return Err(e);
        },
    };
    Ok(Capabilities { seat_version, manager_version })
}

} // verus!
