//! The fixed-width layout of the control tool's tables, as named values:
//! how many header rows every table carries, the minimum width of a data
//! row, and the column ranges that hold each field.

use vstd::prelude::*;

verus! {

/// A line shorter than this many characters is never a data row: it is a
/// border, a separator, or a truncated line, and the parser skips it.
pub const MIN_DATA_WIDTH: usize = 26;

/// The first rows of every table are border and header rows; the parser
/// skips them whatever they hold.
pub const HEADER_ROWS: usize = 4;

/// The column range that holds a station's name in the station table.
pub const STATION_NAME_START: usize = 6;

pub const STATION_NAME_END: usize = 20;

/// The column of the first network row where the active-network marker
/// stands when the station is connected.
pub const NET_FIRST_MARKER_COL: usize = 13;

/// The marker glyph that prefixes the currently connected network.
pub const ACTIVE_MARKER: char = '>';

/// The SSID column range of the first network row when the marker is
/// present: the marker shifts the whole row to the right.
pub const NET_FIRST_MARKED_START: usize = 21;

pub const NET_FIRST_MARKED_END: usize = 53;

/// The SSID column range of the first network row without the marker.
pub const NET_FIRST_PLAIN_START: usize = 10;

pub const NET_FIRST_PLAIN_END: usize = 42;

/// The SSID column range of every network row after the first.
pub const NET_LATER_START: usize = 6;

pub const NET_LATER_END: usize = 36;

} // verus!
