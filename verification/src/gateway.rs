//! The fixed argument templates with which the control tool is invoked,
//! and the reading of its weak success signal.
//!
//! The tool itself runs outside this crate; the unverified shell spawns
//! it.  What is verified here is everything the shell must get right: the
//! tool's name, the exact argument vector of each of the five operations,
//! and how captured output is read as success.

use vstd::prelude::*;

use crate::text::views_of;

verus! {

/// The name of the external wireless-control executable.
pub fn control_tool_name() -> (r: String)
    ensures
        r@ == "iwctl"@,
{
    String::from_str("iwctl")
}

/// The argument vector that lists the stations.
pub open spec fn spec_list_stations_args() -> Seq<Seq<char>> {
    seq!["station"@, "list"@]
}

/// Builds the argument vector that lists the stations.
pub fn list_stations_args() -> (r: Vec<String>)
    ensures
        views_of(r@) == spec_list_stations_args(),
{
    let mut r: Vec<String> = Vec::new();
    r.push(String::from_str("station"));
    r.push(String::from_str("list"));
    proof {
        assert(views_of(r@) =~~= spec_list_stations_args());
    }
    r
}

/// The argument vector that issues a scan for `station`.
pub open spec fn spec_scan_args(station: Seq<char>) -> Seq<Seq<char>> {
    seq!["station"@, station, "scan"@]
}

/// Builds the argument vector that issues a scan for `station`.
pub fn scan_args(station: &str) -> (r: Vec<String>)
    ensures
        views_of(r@) == spec_scan_args(station@),
{
    let mut r: Vec<String> = Vec::new();
    r.push(String::from_str("station"));
    r.push(String::from_str(station));
    r.push(String::from_str("scan"));
    proof {
        assert(views_of(r@) =~~= spec_scan_args(station@));
    }
    r
}

/// The argument vector that lists the networks visible to `station`.
pub open spec fn spec_list_networks_args(station: Seq<char>) -> Seq<Seq<char>> {
    seq!["station"@, station, "get-networks"@]
}

/// Builds the argument vector that lists the networks visible to
/// `station`.
pub fn list_networks_args(station: &str) -> (r: Vec<String>)
    ensures
        views_of(r@) == spec_list_networks_args(station@),
{
    let mut r: Vec<String> = Vec::new();
    r.push(String::from_str("station"));
    r.push(String::from_str(station));
    r.push(String::from_str("get-networks"));
    proof {
        assert(views_of(r@) =~~= spec_list_networks_args(station@));
    }
    r
}

/// The argument vector that connects `station` to `ssid`; a passphrase,
/// when present, travels as a separate credential argument.
pub open spec fn spec_connect_args(
    station: Seq<char>,
    ssid: Seq<char>,
    passphrase: Option<Seq<char>>,
) -> Seq<Seq<char>> {
    match passphrase {
        None => seq!["station"@, station, "connect"@, ssid],
        Some(p) => seq!["station"@, station, "connect"@, ssid, "--passphrase"@, p],
    }
}

/// Builds the argument vector that connects `station` to `ssid`.
pub fn connect_args(station: &str, ssid: &str, passphrase: &Option<String>) -> (r: Vec<String>)
    ensures
        views_of(r@) == spec_connect_args(station@, ssid@, passphrase.deep_view()),
{
    let mut r: Vec<String> = Vec::new();
    r.push(String::from_str("station"));
    r.push(String::from_str(station));
    r.push(String::from_str("connect"));
    r.push(String::from_str(ssid));
    match passphrase {
        Some(p) => {
            r.push(String::from_str("--passphrase"));
            r.push(p.clone());
            proof {
                assert(views_of(r@) =~~= spec_connect_args(
                    station@,
                    ssid@,
                    passphrase.deep_view(),
                ));
            }
        },
        None => {
            proof {
                assert(views_of(r@) =~~= spec_connect_args(
                    station@,
                    ssid@,
                    passphrase.deep_view(),
                ));
            }
        },
    }
    r
}

/// The argument vector that disconnects `station`.
pub open spec fn spec_disconnect_args(station: Seq<char>) -> Seq<Seq<char>> {
    seq!["station"@, station, "disconnect"@]
}

/// Builds the argument vector that disconnects `station`.
pub fn disconnect_args(station: &str) -> (r: Vec<String>)
    ensures
        views_of(r@) == spec_disconnect_args(station@),
{
    let mut r: Vec<String> = Vec::new();
    r.push(String::from_str("station"));
    r.push(String::from_str(station));
    r.push(String::from_str("disconnect"));
    proof {
        assert(views_of(r@) =~~= spec_disconnect_args(station@));
    }
    r
}

/// Reads the tool's captured output as a success signal: the connect is
/// taken to have succeeded exactly when the output is non-empty.  The
/// signal is weak — the tool emits text on some failures too — and this
/// function pins that known-lossy reading rather than hiding it.
pub fn connect_succeeded(stdout: &Vec<u8>) -> (r: bool)
    ensures
        r == (stdout@.len() > 0),
{
    stdout.len() > 0
}

/// The notice printed when a scan is issued before listing networks.
pub fn scanning_notice() -> (r: String)
    ensures
        r@ == "Scanning"@,
{
    String::from_str("Scanning")
}

} // verus!
