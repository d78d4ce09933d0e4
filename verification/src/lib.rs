//! A verified core for a small interactive Wi-Fi helper.
//!
//! The helper drives an external wireless-control tool (`iwctl`): it lists
//! the Wi-Fi capable interfaces ("stations"), scans for nearby networks,
//! and connects to a chosen network, optionally with a passphrase.  All the
//! logic of that helper lives here, verified: the fixed-width table parser
//! that turns the tool's text reports into structured records, the
//! interactive selection flow, the argument templates for each control
//! operation, and the command-line dispatch.  The thin unverified shell
//! around this crate only spawns the tool, reads console lines, and prints.

pub mod cli;
pub mod flow;
pub mod gateway;
pub mod layout;
pub mod parse;
pub mod text;
