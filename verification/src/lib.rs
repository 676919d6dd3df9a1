//! A verified core for a BLE (Bluetooth Low Energy) central-role command-line
//! utility.
//!
//! The library holds everything that can be decided without touching a radio:
//! locating a peripheral among scan results, resolving characteristics by
//! UUID, the session state machine that orders connect / discover / read /
//! write operations, payload trimming, command-line parsing, and the exact
//! text the tool prints. An unverified shell drives the actual Bluetooth
//! stack and feeds events back into the state machine.

pub mod cmd;
pub mod device;
pub mod laws;
pub mod locator;
pub mod payload;
pub mod render;
pub mod session;
