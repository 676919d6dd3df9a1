//! Data model for discovered peripherals, their GATT services and
//! characteristics, and the error taxonomy of the tool.

use vstd::prelude::*;

verus! {

/// A remote device seen during a scan window: its hardware address in string
/// form and its advertised local name, if it sent one.
pub struct PeripheralInfo {
    pub address: String,
    pub name: Option<String>,
}

/// The property flags a characteristic advertises, one boolean per flag.
#[derive(Clone, Copy, PartialEq, Eq, Structural, Debug)]
pub struct CharProps {
    pub broadcast: bool,
    pub read: bool,
    pub write_without_response: bool,
    pub write: bool,
    pub notify: bool,
    pub indicate: bool,
    pub authenticated_signed_writes: bool,
    pub extended_properties: bool,
}

/// A readable/writable GATT endpoint, identified by its UUID in string form.
pub struct CharacteristicInfo {
    pub uuid: String,
    pub properties: CharProps,
}

/// A GATT service: a UUID and the characteristics it groups.
pub struct ServiceInfo {
    pub uuid: String,
    pub characteristics: Vec<CharacteristicInfo>,
}

/// Everything that can go wrong during one command.
///
/// `DeviceNotFound` is the one condition reported as a plain message with a
/// clean exit; all others abort the command as failures.
#[derive(Clone, Copy, PartialEq, Eq, Structural, Debug)]
pub enum BleError {
    AdapterUnavailable,
    ScanFailed,
    ConnectFailed,
    DiscoveryFailed,
    DeviceNotFound,
    CharacteristicNotFound,
    TransportFailure,
}

/// The diagnostic text for each error.
pub open spec fn spec_message(e: BleError) -> Seq<char> {
    match e {
        BleError::AdapterUnavailable => "No Bluetooth adapter is available"@,
        BleError::ScanFailed => "Scan failed"@,
        BleError::ConnectFailed => "Unable to connect to device"@,
        BleError::DiscoveryFailed => "Service discovery failed"@,
        BleError::DeviceNotFound => "Unable to find device"@,
        BleError::CharacteristicNotFound => "Characteristic not found"@,
        BleError::TransportFailure => "Read or write failed"@,
    }
}

impl BleError {
    /// The diagnostic text printed when this error ends a command.
    pub fn message(&self) -> (r: &'static str)
        ensures
            r@ == spec_message(*self),
    {
        match self {
            BleError::AdapterUnavailable => "No Bluetooth adapter is available",
            BleError::ScanFailed => "Scan failed",
            BleError::ConnectFailed => "Unable to connect to device",
            BleError::DiscoveryFailed => "Service discovery failed",
            BleError::DeviceNotFound => "Unable to find device",
            BleError::CharacteristicNotFound => "Characteristic not found",
            BleError::TransportFailure => "Read or write failed",
        }
    }
}

/// The flattened characteristic set contains `uuid` exactly (case-sensitive,
/// character for character) somewhere across all services.
pub open spec fn spec_has_char(services: Seq<ServiceInfo>, uuid: Seq<char>) -> bool {
    exists|i: int, j: int|
        0 <= i < services.len() && 0 <= j < services[i].characteristics@.len()
            && services[i].characteristics@[j].uuid@ == uuid
}

/// No characteristic before position (`si`, `sj`) in service-then-declaration
/// order matches `uuid`.
pub open spec fn spec_no_match_before(
    services: Seq<ServiceInfo>,
    uuid: Seq<char>,
    si: int,
    sj: int,
) -> bool {
    forall|i: int, j: int|
        0 <= i < services.len() && 0 <= j < services[i].characteristics@.len()
            && (i < si || (i == si && j < sj)) ==> services[i].characteristics@[j].uuid@ != uuid
}

/// Resolve a characteristic by exact UUID string match over the flattened set
/// of all characteristics across all services. Returns the indices of the
/// first match in service order, or `None` when no characteristic matches.
pub fn find_char(services: &Vec<ServiceInfo>, uuid: &String) -> (r: Option<(usize, usize)>)
    ensures
        match r {
            Some((si, sj)) => {
                &&& 0 <= si < services@.len()
                &&& 0 <= sj < services@[si as int].characteristics@.len()
                &&& services@[si as int].characteristics@[sj as int].uuid@ == uuid@
                &&& spec_no_match_before(services@, uuid@, si as int, sj as int)
            },
            None => !spec_has_char(services@, uuid@),
        },
{
    let mut i: usize = 0;
    while i < services.len()
        invariant
            0 <= i <= services@.len(),
            spec_no_match_before(services@, uuid@, i as int, 0),
        decreases services@.len() - i,
    {
        let svc = &services[i];
        let mut j: usize = 0;
        while j < svc.characteristics.len()
            invariant
                0 <= i < services@.len(),
                0 <= j <= svc.characteristics@.len(),
                svc == services@[i as int],
                spec_no_match_before(services@, uuid@, i as int, j as int),
            decreases svc.characteristics@.len() - j,
        {
            if svc.characteristics[j].uuid == *uuid {
                return Some((i, j));
            }
            j = j + 1;
        }
        i = i + 1;
        assert(spec_no_match_before(services@, uuid@, i as int, 0));
    }
    None
}

} // verus!
