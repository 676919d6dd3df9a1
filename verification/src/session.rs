//! The session state machine.
//!
//! One command is one session: connect to the located peripheral, discover
//! its services, then run the mode-specific operation. The machine decides;
//! an unverified shell performs each [`Action`] against the Bluetooth stack
//! and feeds the outcome back as an [`Event`]. Every adapter failure aborts
//! the command: nothing is retried.

use vstd::prelude::*;

use crate::device::BleError;
use crate::device::PeripheralInfo;
use crate::device::ServiceInfo;
use crate::device::find_char;
use crate::device::spec_has_char;
use crate::locator::locate;
use crate::locator::spec_address_present;
use crate::payload::spec_trim;
use crate::payload::trim_ascii;

verus! {

/// Link-layer delivery mode for a write. The tool always writes without
/// response: fire-and-forget, no application-level acknowledgement awaited.
#[derive(Clone, Copy, PartialEq, Eq, Structural, Debug)]
pub enum WriteMode {
    WithoutResponse,
    WithResponse,
}

/// What one command asks the session to do after connect and discovery.
pub enum Mode {
    /// Print every service with its characteristics and their properties.
    Enumerate,
    /// Read the characteristic with this UUID and print the bytes.
    Read { uuid: String },
    /// Write `payload` to the characteristic with this UUID, once.
    Write { uuid: String, payload: Vec<u8> },
    /// Alternate: one input line written to `write_uuid`, one read from
    /// `read_uuid`, until input ends.
    Interactive { write_uuid: String, read_uuid: String },
}

/// Where a session stands between two events.
pub enum Session {
    /// Connect was requested; waiting for its outcome.
    Connecting { mode: Mode },
    /// Connected; service discovery was requested.
    Discovering { mode: Mode },
    /// A single read was issued; waiting for the bytes.
    AwaitRead,
    /// A single write was issued; waiting for the acknowledgement.
    AwaitWriteAck,
    /// Interactive: waiting for the next input line.
    AwaitLine { write_uuid: String, read_uuid: String },
    /// Interactive: a line was written; waiting for the write to complete.
    LoopWrite { write_uuid: String, read_uuid: String },
    /// Interactive: the paired read was issued; waiting for the bytes.
    LoopRead { write_uuid: String, read_uuid: String },
    /// The command ran to completion.
    Done,
    /// The command aborted with this error.
    Failed { error: BleError },
}

/// What the outside world reports back to the machine.
pub enum Event {
    Connected,
    ConnectFailed,
    Discovered { services: Vec<ServiceInfo> },
    DiscoverFailed,
    WriteDone,
    WriteFailed,
    ReadResult { value: Vec<u8> },
    ReadFailed,
    /// One line of standard input, as raw bytes, newline included.
    Line { raw: Vec<u8> },
    /// Standard input is exhausted; normal loop termination, not an error.
    EndOfInput,
}

/// What the shell must do next on the machine's behalf.
pub enum Action {
    Connect,
    Discover,
    ReadChar { uuid: String },
    WriteChar { uuid: String, payload: Vec<u8>, write_type: WriteMode },
    RequestLine,
    /// The session is over; `None` is success, `Some` names the failure.
    Stop { error: Option<BleError> },
    /// The event did not belong to this state; nothing to do.
    Idle,
}

/// The mathematical shadow of [`Action`]: strings and byte vectors as
/// sequences, so that contracts and laws can speak of constructed payloads.
pub ghost enum ActionV {
    Connect,
    Discover,
    ReadChar { uuid: Seq<char> },
    WriteChar { uuid: Seq<char>, payload: Seq<u8>, write_type: WriteMode },
    RequestLine,
    Stop { error: Option<BleError> },
    Idle,
}

impl View for Action {
    type V = ActionV;

    open spec fn view(&self) -> ActionV {
        match self {
            Action::Connect => ActionV::Connect,
            Action::Discover => ActionV::Discover,
            Action::ReadChar { uuid } => ActionV::ReadChar { uuid: uuid@ },
            Action::WriteChar { uuid, payload, write_type } => ActionV::WriteChar {
                uuid: uuid@,
                payload: payload@,
                write_type: *write_type,
            },
            Action::RequestLine => ActionV::RequestLine,
            Action::Stop { error } => ActionV::Stop { error: *error },
            Action::Idle => ActionV::Idle,
        }
    }
}

/// The transition a `Discovered` event causes, by mode: enumeration finishes
/// at once; read, write and the interactive loop first resolve their
/// characteristic UUIDs over the flattened set and abort with
/// `CharacteristicNotFound` when one is absent.
pub open spec fn spec_dispatch(mode: Mode, services: Vec<ServiceInfo>) -> (Session, ActionV) {
    match mode {
        Mode::Enumerate => (Session::Done, ActionV::Stop { error: None }),
        Mode::Read { uuid } => if spec_has_char(services@, uuid@) {
            (Session::AwaitRead, ActionV::ReadChar { uuid: uuid@ })
        } else {
            (
                Session::Failed { error: BleError::CharacteristicNotFound },
                ActionV::Stop { error: Some(BleError::CharacteristicNotFound) },
            )
        },
        Mode::Write { uuid, payload } => if spec_has_char(services@, uuid@) {
            (
                Session::AwaitWriteAck,
                ActionV::WriteChar {
                    uuid: uuid@,
                    payload: payload@,
                    write_type: WriteMode::WithoutResponse,
                },
            )
        } else {
            (
                Session::Failed { error: BleError::CharacteristicNotFound },
                ActionV::Stop { error: Some(BleError::CharacteristicNotFound) },
            )
        },
        Mode::Interactive { write_uuid, read_uuid } => if spec_has_char(services@, write_uuid@)
            && spec_has_char(services@, read_uuid@) {
            (
                Session::AwaitLine { write_uuid, read_uuid },
                ActionV::RequestLine,
            )
        } else {
            (
                Session::Failed { error: BleError::CharacteristicNotFound },
                ActionV::Stop { error: Some(BleError::CharacteristicNotFound) },
            )
        },
    }
}

/// The whole machine, one event at a time. Events that do not belong to the
/// current state change nothing and ask for nothing.
pub open spec fn spec_step(s: Session, e: Event) -> (Session, ActionV) {
    match s {
        Session::Connecting { mode } => match e {
            Event::Connected => (Session::Discovering { mode }, ActionV::Discover),
            Event::ConnectFailed => (
                Session::Failed { error: BleError::ConnectFailed },
                ActionV::Stop { error: Some(BleError::ConnectFailed) },
            ),
            _ => (Session::Connecting { mode }, ActionV::Idle),
        },
        Session::Discovering { mode } => match e {
            Event::Discovered { services } => spec_dispatch(mode, services),
            Event::DiscoverFailed => (
                Session::Failed { error: BleError::DiscoveryFailed },
                ActionV::Stop { error: Some(BleError::DiscoveryFailed) },
            ),
            _ => (Session::Discovering { mode }, ActionV::Idle),
        },
        Session::AwaitRead => match e {
            Event::ReadResult { value } => (Session::Done, ActionV::Stop { error: None }),
            Event::ReadFailed => (
                Session::Failed { error: BleError::TransportFailure },
                ActionV::Stop { error: Some(BleError::TransportFailure) },
            ),
            _ => (Session::AwaitRead, ActionV::Idle),
        },
        Session::AwaitWriteAck => match e {
            Event::WriteDone => (Session::Done, ActionV::Stop { error: None }),
            Event::WriteFailed => (
                Session::Failed { error: BleError::TransportFailure },
                ActionV::Stop { error: Some(BleError::TransportFailure) },
            ),
            _ => (Session::AwaitWriteAck, ActionV::Idle),
        },
        Session::AwaitLine { write_uuid, read_uuid } => match e {
            Event::Line { raw } => (
                Session::LoopWrite { write_uuid, read_uuid },
                ActionV::WriteChar {
                    uuid: write_uuid@,
                    payload: spec_trim(raw@),
                    write_type: WriteMode::WithoutResponse,
                },
            ),
            Event::EndOfInput => (Session::Done, ActionV::Stop { error: None }),
            _ => (Session::AwaitLine { write_uuid, read_uuid }, ActionV::Idle),
        },
        Session::LoopWrite { write_uuid, read_uuid } => match e {
            Event::WriteDone => (
                Session::LoopRead { write_uuid, read_uuid },
                ActionV::ReadChar { uuid: read_uuid@ },
            ),
            Event::WriteFailed => (
                Session::Failed { error: BleError::TransportFailure },
                ActionV::Stop { error: Some(BleError::TransportFailure) },
            ),
            _ => (Session::LoopWrite { write_uuid, read_uuid }, ActionV::Idle),
        },
        Session::LoopRead { write_uuid, read_uuid } => match e {
            Event::ReadResult { value } => (
                Session::AwaitLine { write_uuid, read_uuid },
                ActionV::RequestLine,
            ),
            Event::ReadFailed => (
                Session::Failed { error: BleError::TransportFailure },
                ActionV::Stop { error: Some(BleError::TransportFailure) },
            ),
            _ => (Session::LoopRead { write_uuid, read_uuid }, ActionV::Idle),
        },
        Session::Done => (Session::Done, ActionV::Idle),
        Session::Failed { error } => (Session::Failed { error }, ActionV::Idle),
    }
}

/// Begin a session: every mode connects first.
pub fn start(mode: Mode) -> (r: (Session, Action))
    ensures
        r.0 == (Session::Connecting { mode }),
        r.1@ == ActionV::Connect,
{
    (Session::Connecting { mode }, Action::Connect)
}

/// Locate the target among the scan results and, only when it is present,
/// begin a session on it. An absent address is `DeviceNotFound` and causes
/// no connect attempt: no session exists then. On success the index is the
/// last peripheral enumerated whose address matches exactly.
pub fn locate_and_start(
    target: &String,
    peripherals: &Vec<PeripheralInfo>,
    mode: Mode,
) -> (r: Result<(usize, Session, Action), BleError>)
    ensures
        match r {
            Ok((idx, s, a)) => {
                &&& 0 <= idx < peripherals@.len()
                &&& peripherals@[idx as int].address@ == target@
                &&& forall|j: int|
                    idx < j < peripherals@.len() ==> peripherals@[j].address@ != target@
                &&& s == (Session::Connecting { mode })
                &&& a@ == ActionV::Connect
            },
            Err(e) => {
                &&& e == BleError::DeviceNotFound
                &&& !spec_address_present(peripherals@, target@)
            },
        },
{
    match locate(target, peripherals) {
        Some(idx) => {
            let (s, a) = start(mode);
            Ok((idx, s, a))
        },
        None => Err(BleError::DeviceNotFound),
    }
}

fn dispatch(mode: Mode, services: Vec<ServiceInfo>) -> (r: (Session, Action))
    ensures
        r.0 == spec_dispatch(mode, services).0,
        r.1@ == spec_dispatch(mode, services).1,
{
    match mode {
        Mode::Enumerate => (Session::Done, Action::Stop { error: None }),
        Mode::Read { uuid } => {
            if find_char(&services, &uuid).is_some() {
                (Session::AwaitRead, Action::ReadChar { uuid })
            } else {
                (
                    Session::Failed { error: BleError::CharacteristicNotFound },
                    Action::Stop { error: Some(BleError::CharacteristicNotFound) },
                )
            }
        },
        Mode::Write { uuid, payload } => {
            if find_char(&services, &uuid).is_some() {
                (
                    Session::AwaitWriteAck,
                    Action::WriteChar {
                        uuid,
                        payload,
                        write_type: WriteMode::WithoutResponse,
                    },
                )
            } else {
                (
                    Session::Failed { error: BleError::CharacteristicNotFound },
                    Action::Stop { error: Some(BleError::CharacteristicNotFound) },
                )
            }
        },
        Mode::Interactive { write_uuid, read_uuid } => {
            let w_found = find_char(&services, &write_uuid).is_some();
            let r_found = find_char(&services, &read_uuid).is_some();
            if w_found && r_found {
                (
                    Session::AwaitLine { write_uuid, read_uuid },
                    Action::RequestLine,
                )
            } else {
                (
                    Session::Failed { error: BleError::CharacteristicNotFound },
                    Action::Stop { error: Some(BleError::CharacteristicNotFound) },
                )
            }
        },
    }
}

impl Session {
    /// Advance the machine by one event; the returned action is what the
    /// shell must perform next. The pair is exactly what [`spec_step`] says.
    pub fn step(self, event: Event) -> (r: (Session, Action))
        ensures
            r.0 == spec_step(self, event).0,
            r.1@ == spec_step(self, event).1,
    {
        match self {
            Session::Connecting { mode } => match event {
                Event::Connected => (Session::Discovering { mode }, Action::Discover),
                Event::ConnectFailed => (
                    Session::Failed { error: BleError::ConnectFailed },
                    Action::Stop { error: Some(BleError::ConnectFailed) },
                ),
                _ => (Session::Connecting { mode }, Action::Idle),
            },
            Session::Discovering { mode } => match event {
                Event::Discovered { services } => dispatch(mode, services),
                Event::DiscoverFailed => (
                    Session::Failed { error: BleError::DiscoveryFailed },
                    Action::Stop { error: Some(BleError::DiscoveryFailed) },
                ),
                _ => (Session::Discovering { mode }, Action::Idle),
            },
            Session::AwaitRead => match event {
                Event::ReadResult { value: _ } => (Session::Done, Action::Stop { error: None }),
                Event::ReadFailed => (
                    Session::Failed { error: BleError::TransportFailure },
                    Action::Stop { error: Some(BleError::TransportFailure) },
                ),
                _ => (Session::AwaitRead, Action::Idle),
            },
            Session::AwaitWriteAck => match event {
                Event::WriteDone => (Session::Done, Action::Stop { error: None }),
                Event::WriteFailed => (
                    Session::Failed { error: BleError::TransportFailure },
                    Action::Stop { error: Some(BleError::TransportFailure) },
                ),
                _ => (Session::AwaitWriteAck, Action::Idle),
            },
            Session::AwaitLine { write_uuid, read_uuid } => match event {
                Event::Line { raw } => {
                    let payload = trim_ascii(&raw);
                    let uuid = write_uuid.clone();
                    (
                        Session::LoopWrite { write_uuid, read_uuid },
                        Action::WriteChar {
                            uuid,
                            payload,
                            write_type: WriteMode::WithoutResponse,
                        },
                    )
                },
                Event::EndOfInput => (Session::Done, Action::Stop { error: None }),
                _ => (Session::AwaitLine { write_uuid, read_uuid }, Action::Idle),
            },
            Session::LoopWrite { write_uuid, read_uuid } => match event {
                Event::WriteDone => {
                    let uuid = read_uuid.clone();
                    (
                        Session::LoopRead { write_uuid, read_uuid },
                        Action::ReadChar { uuid },
                    )
                },
                Event::WriteFailed => (
                    Session::Failed { error: BleError::TransportFailure },
                    Action::Stop { error: Some(BleError::TransportFailure) },
                ),
                _ => (Session::LoopWrite { write_uuid, read_uuid }, Action::Idle),
            },
            Session::LoopRead { write_uuid, read_uuid } => match event {
                Event::ReadResult { value: _ } => (
                    Session::AwaitLine { write_uuid, read_uuid },
                    Action::RequestLine,
                ),
                Event::ReadFailed => (
                    Session::Failed { error: BleError::TransportFailure },
                    Action::Stop { error: Some(BleError::TransportFailure) },
                ),
                _ => (Session::LoopRead { write_uuid, read_uuid }, Action::Idle),
            },
            Session::Done => (Session::Done, Action::Idle),
            Session::Failed { error } => (Session::Failed { error }, Action::Idle),
        }
    }
}

} // verus!
