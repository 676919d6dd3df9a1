//! Command-line dispatch: which verb was asked for, with which arguments,
//! and the scan window each verb uses.

use vstd::prelude::*;

verus! {

/// A parsed command line.
pub enum Command {
    /// Print every peripheral the scan window finds.
    Scan,
    /// Connect to `addr` and print its services and characteristics.
    Ping { addr: String },
    /// Connect to `addr`, read the characteristic `uuid`, print the bytes.
    Read { addr: String, uuid: String },
    /// Connect to `addr` and run the interactive write/read loop over the
    /// fixed UART-profile characteristics.
    Write { addr: String },
    /// Connect to `addr` and write the whole standard input, trimmed, to the
    /// characteristic `uuid` as one payload.
    WriteValue { addr: String, uuid: String },
    /// Print the usage text.
    Help,
}

/// Why a command line could not be parsed; each is reported with the usage
/// text and a clean exit.
pub enum UsageError {
    MissingCommand,
    MissingAddress,
    MissingUuid,
    Unrecognized { word: String },
}

/// Parse `args` as handed to the process: `args[0]` is the program name,
/// `args[1]` the verb, the rest its arguments.
pub fn parse_command(args: &Vec<String>) -> (r: Result<Command, UsageError>)
    ensures
        match r {
            Ok(c) => args@.len() >= 2 && match c {
                Command::Scan => args@[1]@ == "scan"@,
                Command::Ping { addr } => {
                    &&& args@[1]@ == "ping"@
                    &&& args@.len() >= 3
                    &&& addr@ == args@[2]@
                },
                Command::Read { addr, uuid } => {
                    &&& args@[1]@ == "read"@
                    &&& args@.len() >= 4
                    &&& addr@ == args@[2]@
                    &&& uuid@ == args@[3]@
                },
                Command::Write { addr } => {
                    &&& args@[1]@ == "write"@
                    &&& args@.len() == 3
                    &&& addr@ == args@[2]@
                },
                Command::WriteValue { addr, uuid } => {
                    &&& args@[1]@ == "write"@
                    &&& args@.len() >= 4
                    &&& addr@ == args@[2]@
                    &&& uuid@ == args@[3]@
                },
                Command::Help => args@[1]@ == "help"@,
            },
            Err(e) => match e {
                UsageError::MissingCommand => args@.len() < 2,
                UsageError::MissingAddress => {
                    &&& args@.len() == 2
                    &&& (args@[1]@ == "ping"@ || args@[1]@ == "read"@ || args@[1]@ == "write"@)
                },
                UsageError::MissingUuid => args@.len() == 3 && args@[1]@ == "read"@,
                UsageError::Unrecognized { word } => {
                    &&& args@.len() >= 2
                    &&& word@ == args@[1]@
                    &&& args@[1]@ != "scan"@
                    &&& args@[1]@ != "ping"@
                    &&& args@[1]@ != "read"@
                    &&& args@[1]@ != "write"@
                    &&& args@[1]@ != "help"@
                },
            },
        },
{
    if args.len() < 2 {
        return Err(UsageError::MissingCommand);
    }
    let verb = &args[1];
    if *verb == "scan".to_owned() {
        Ok(Command::Scan)
    } else if *verb == "ping".to_owned() {
        if args.len() < 3 {
            Err(UsageError::MissingAddress)
        } else {
            Ok(Command::Ping { addr: args[2].clone() })
        }
    } else if *verb == "read".to_owned() {
        if args.len() < 3 {
            Err(UsageError::MissingAddress)
        } else if args.len() < 4 {
            Err(UsageError::MissingUuid)
        } else {
            Ok(Command::Read { addr: args[2].clone(), uuid: args[3].clone() })
        }
    } else if *verb == "write".to_owned() {
        if args.len() < 3 {
            Err(UsageError::MissingAddress)
        } else if args.len() == 3 {
            Ok(Command::Write { addr: args[2].clone() })
        } else {
            Ok(Command::WriteValue { addr: args[2].clone(), uuid: args[3].clone() })
        }
    } else if *verb == "help".to_owned() {
        Ok(Command::Help)
    } else {
        Err(UsageError::Unrecognized { word: args[1].clone() })
    }
}

/// The scan window, in seconds, each verb waits before consulting the scan
/// results: the write shapes use two seconds, every other radio verb three.
pub fn scan_window_secs(c: &Command) -> (r: u64)
    ensures
        r == (match c {
            Command::Write { .. } => 2u64,
            Command::WriteValue { .. } => 2u64,
            _ => 3u64,
        }),
{
    match c {
        Command::Write { addr: _ } => 2,
        Command::WriteValue { addr: _, uuid: _ } => 2,
        _ => 3,
    }
}

/// The usage text printed by the help command and after any usage error.
pub fn usage_text() -> (r: &'static str)
    ensures
        r@ == "ble-util\n\nUsage:\n    ble-util <command> <args>\n\nCommands:\n    scan                scan for and print nearby devices\n    ping <addr>         connect to device and print its services and characteristics\n    read <addr> <char>  connect to the device and read the value of the characteristic\n    write <addr> [<char>]  connect to the device and write stdin to the characteristic (interactive loop without <char>)\n    help                print this help message\n"@,
{
    "ble-util\n\nUsage:\n    ble-util <command> <args>\n\nCommands:\n    scan                scan for and print nearby devices\n    ping <addr>         connect to device and print its services and characteristics\n    read <addr> <char>  connect to the device and read the value of the characteristic\n    write <addr> [<char>]  connect to the device and write stdin to the characteristic (interactive loop without <char>)\n    help                print this help message\n"
}

/// The write endpoint of the conventional UART-over-BLE profile, used by the
/// interactive loop.
pub fn uart_write_uuid() -> (r: String)
    ensures
        r@ == "6e400002-b5a3-f393-e0a9-e50e24dcca9e"@,
{
    "6e400002-b5a3-f393-e0a9-e50e24dcca9e".to_owned()
}

/// The read endpoint of the conventional UART-over-BLE profile, used by the
/// interactive loop.
pub fn uart_read_uuid() -> (r: String)
    ensures
        r@ == "6e400003-b5a3-f393-e0a9-e50e24dcca9e"@,
{
    "6e400003-b5a3-f393-e0a9-e50e24dcca9e".to_owned()
}

} // verus!
