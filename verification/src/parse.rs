//! The table parser: turns the control tool's fixed-width text reports
//! into structured station and network records.
//!
//! Both tables follow the same row discipline: a fixed number of header
//! rows that are always skipped, and a minimum width below which a line is
//! never a data row.  A station row carries the interface name at a fixed
//! column range and the word `scanning` somewhere in the row while a scan
//! runs.  A network row carries the SSID at a column range that depends on
//! the row: the first data row may carry the active-network marker, which
//! shifts its SSID columns; later rows use one fixed range.  Every SSID is
//! cut at the first run of two consecutive spaces, which strips the
//! signal and security columns that the fixed-width cut leaves behind.
//! The parser never fails: malformed input degrades to fewer or shorter
//! records.

use vstd::prelude::*;

use crate::layout::ACTIVE_MARKER;
use crate::layout::HEADER_ROWS;
use crate::layout::MIN_DATA_WIDTH;
use crate::layout::NET_FIRST_MARKED_END;
use crate::layout::NET_FIRST_MARKED_START;
use crate::layout::NET_FIRST_MARKER_COL;
use crate::layout::NET_FIRST_PLAIN_END;
use crate::layout::NET_FIRST_PLAIN_START;
use crate::layout::NET_LATER_END;
use crate::layout::NET_LATER_START;
use crate::layout::STATION_NAME_END;
use crate::layout::STATION_NAME_START;
use crate::text::contains_pat;
use crate::text::contains_pattern;
use crate::text::cut_at_double_space;
use crate::text::first_segment;
use crate::text::spec_split_lines;
use crate::text::spec_trim;
use crate::text::split_lines;
use crate::text::trim_str;
use crate::text::views_of;

verus! {

/// A Wi-Fi capable interface, as one row of the station table reports it.
pub struct Station {
    /// The interface name, trimmed of the padding around its column range.
    pub name: String,
    /// Whether the row reports a scan already in progress.
    pub scanning: bool,
}

/// The mathematical content of a [`Station`].
pub struct StationView {
    pub name: Seq<char>,
    pub scanning: bool,
}

impl View for Station {
    type V = StationView;

    open spec fn view(&self) -> StationView {
        StationView { name: self.name@, scanning: self.scanning }
    }
}

impl Clone for Station {
    fn clone(&self) -> (r: Station)
        ensures
            r@ == self@,
    {
        Station { name: self.name.clone(), scanning: self.scanning }
    }
}

/// The views of a sequence of stations.
pub open spec fn station_views(v: Seq<Station>) -> Seq<StationView> {
    v.map_values(|s: Station| s@)
}

/// Whether a line is long enough to be a data row.
pub open spec fn spec_data_line(line: Seq<char>) -> bool {
    line.len() >= MIN_DATA_WIDTH
}

/// The characters of `line` from column `start` up to column `end`, or up
/// to the end of the line where the line is shorter: the fixed-width cut,
/// degrading on short lines instead of failing.
pub open spec fn clamp_cut(line: Seq<char>, start: int, end: int) -> Seq<char> {
    line.subrange(
        start,
        if end <= line.len() {
            end
        } else {
            line.len() as int
        },
    )
}

/// The station record that a data row denotes.
pub open spec fn spec_station_of(line: Seq<char>) -> StationView {
    StationView {
        name: spec_trim(clamp_cut(line, STATION_NAME_START as int, STATION_NAME_END as int)),
        scanning: contains_pat(line, "scanning"@),
    }
}

/// The station records of a table, reading its lines from row `i` on.
pub open spec fn spec_stations_from(lines: Seq<Seq<char>>, i: int) -> Seq<StationView>
    decreases lines.len() - i,
{
    if i < 0 || i >= lines.len() {
        Seq::empty()
    } else {
        let rest = spec_stations_from(lines, i + 1);
        if i >= HEADER_ROWS as int && spec_data_line(lines[i]) {
            seq![spec_station_of(lines[i])] + rest
        } else {
            rest
        }
    }
}

/// The station records of the raw station-table text.
pub open spec fn spec_parse_stations(text: Seq<char>) -> Seq<StationView> {
    spec_stations_from(spec_split_lines(text), 0)
}

/// The characters of `line` at the columns that hold the field, clamped
/// to the line's end.
fn cut_columns<'a>(line: &'a str, start: usize, end: usize) -> (r: &'a str)
    requires
        start <= end,
        start as int <= line@.len(),
    ensures
        r@ == clamp_cut(line@, start as int, end as int),
{
    let n = line.unicode_len();
    let e = if end <= n {
        end
    } else {
        n
    };
    line.substring_char(start, e)
}

/// The station record of one data row.
pub fn station_of_line(line: &str) -> (r: Station)
    requires
        line@.len() >= MIN_DATA_WIDTH,
    ensures
        r@ == spec_station_of(line@),
{
    let cut = cut_columns(line, STATION_NAME_START, STATION_NAME_END);
    let name = String::from_str(trim_str(cut));
    let scanning = contains_pattern(line, "scanning");
    Station { name, scanning }
}

/// Parses the raw text of the station table into station records, one per
/// data row, in row order.  Header rows and short lines yield no record;
/// malformed text yields fewer records, never an error.
pub fn parse_stations(text: &str) -> (r: Vec<Station>)
    ensures
        station_views(r@) == spec_parse_stations(text@),
{
    let lines = split_lines(text);
    let mut out: Vec<Station> = Vec::new();
    let mut l: usize = 0;
    proof {
        assert(station_views(out@) =~~= Seq::<StationView>::empty());
        assert(station_views(out@) + spec_stations_from(views_of(lines@), 0) =~~=
        spec_stations_from(views_of(lines@), 0));
    }
    while l < lines.len()
        invariant
            0 <= l <= lines@.len(),
            views_of(lines@) == spec_split_lines(text@),
            spec_parse_stations(text@) == station_views(out@) + spec_stations_from(
                views_of(lines@),
                l as int,
            ),
        decreases lines@.len() - l,
    {
        let line: &String = &lines[l];
        proof {
            assert(views_of(lines@)[l as int] == line@);
        }
        if l >= HEADER_ROWS && line.as_str().unicode_len() >= MIN_DATA_WIDTH {
            let st = station_of_line(line.as_str());
            proof {
                assert(station_views(out@.push(st)) =~~= station_views(out@) + seq![st@]);
                assert(station_views(out@) + seq![st@] + spec_stations_from(
                    views_of(lines@),
                    l as int + 1,
                ) =~~= station_views(out@) + (seq![spec_station_of(views_of(lines@)[l as int])]
                    + spec_stations_from(views_of(lines@), l as int + 1)));
            }
            out.push(st);
        }
        l = l + 1;
    }
    proof {
        assert(station_views(out@) + spec_stations_from(views_of(lines@), l as int) =~~=
        station_views(out@));
    }
    out
}

/// The SSID columns of a network data row: the first row may carry the
/// active-network marker, which shifts its columns; later rows use one
/// fixed range.
pub open spec fn spec_network_cut(line: Seq<char>, first: bool) -> Seq<char> {
    if first {
        if line[NET_FIRST_MARKER_COL as int] == ACTIVE_MARKER {
            clamp_cut(line, NET_FIRST_MARKED_START as int, NET_FIRST_MARKED_END as int)
        } else {
            clamp_cut(line, NET_FIRST_PLAIN_START as int, NET_FIRST_PLAIN_END as int)
        }
    } else {
        clamp_cut(line, NET_LATER_START as int, NET_LATER_END as int)
    }
}

/// The SSID that a network data row denotes: the fixed-width cut, then
/// everything before the first run of two consecutive spaces.
pub open spec fn spec_network_of(line: Seq<char>, first: bool) -> Seq<char> {
    first_segment(spec_network_cut(line, first))
}

/// The SSIDs of a network table, reading its lines from row `i` on.  The
/// row immediately after the header is the one the marker may shift.
pub open spec fn spec_networks_from(lines: Seq<Seq<char>>, i: int) -> Seq<Seq<char>>
    decreases lines.len() - i,
{
    if i < 0 || i >= lines.len() {
        Seq::empty()
    } else {
        let rest = spec_networks_from(lines, i + 1);
        if i >= HEADER_ROWS as int && spec_data_line(lines[i]) {
            seq![spec_network_of(lines[i], i == HEADER_ROWS as int)] + rest
        } else {
            rest
        }
    }
}

/// The SSIDs of the raw network-table text.
pub open spec fn spec_parse_networks(text: Seq<char>) -> Seq<Seq<char>> {
    spec_networks_from(spec_split_lines(text), 0)
}

/// The SSID of one network data row.  `first` says whether this is the
/// row immediately after the header, whose columns the marker may shift.
pub fn network_of_line(line: &str, first: bool) -> (r: String)
    requires
        line@.len() >= MIN_DATA_WIDTH,
    ensures
        r@ == spec_network_of(line@, first),
{
    let cut: &str = if first {
        if line.get_char(NET_FIRST_MARKER_COL) == ACTIVE_MARKER {
            cut_columns(line, NET_FIRST_MARKED_START, NET_FIRST_MARKED_END)
        } else {
            cut_columns(line, NET_FIRST_PLAIN_START, NET_FIRST_PLAIN_END)
        }
    } else {
        cut_columns(line, NET_LATER_START, NET_LATER_END)
    };
    String::from_str(cut_at_double_space(cut))
}

/// Parses the raw text of the network table into SSIDs, one per data row,
/// in row order.  Header rows and short lines yield no record; malformed
/// text yields fewer records, never an error.
pub fn parse_networks(text: &str) -> (r: Vec<String>)
    ensures
        views_of(r@) == spec_parse_networks(text@),
{
    let lines = split_lines(text);
    let mut out: Vec<String> = Vec::new();
    let mut l: usize = 0;
    proof {
        assert(views_of(out@) =~~= Seq::<Seq<char>>::empty());
        assert(views_of(out@) + spec_networks_from(views_of(lines@), 0) =~~= spec_networks_from(
            views_of(lines@),
            0,
        ));
    }
    while l < lines.len()
        invariant
            0 <= l <= lines@.len(),
            views_of(lines@) == spec_split_lines(text@),
            spec_parse_networks(text@) == views_of(out@) + spec_networks_from(
                views_of(lines@),
                l as int,
            ),
        decreases lines@.len() - l,
    {
        let line: &String = &lines[l];
        proof {
            assert(views_of(lines@)[l as int] == line@);
        }
        if l >= HEADER_ROWS && line.as_str().unicode_len() >= MIN_DATA_WIDTH {
            let ssid = network_of_line(line.as_str(), l == HEADER_ROWS);
            proof {
                assert(views_of(out@.push(ssid)) =~~= views_of(out@) + seq![ssid@]);
                assert(views_of(out@) + seq![ssid@] + spec_networks_from(
                    views_of(lines@),
                    l as int + 1,
                ) =~~= views_of(out@) + (seq![
                    spec_network_of(views_of(lines@)[l as int], l == HEADER_ROWS as int),
                ] + spec_networks_from(views_of(lines@), l as int + 1)));
            }
            out.push(ssid);
        }
        l = l + 1;
    }
    proof {
        assert(views_of(out@) + spec_networks_from(views_of(lines@), l as int) =~~= views_of(
            out@,
        ));
    }
    out
}

/// Rows before `h` that lie past the header region contribute nothing
/// when they are short: parsing from `i` equals parsing from `h`.
proof fn lemma_stations_skip_short(lines: Seq<Seq<char>>, i: int, h: int)
    requires
        0 <= i <= h <= lines.len(),
        forall|j: int| HEADER_ROWS as int <= j < h ==> !spec_data_line(#[trigger] lines[j]),
    ensures
        spec_stations_from(lines, i) == spec_stations_from(lines, h),
    decreases h - i,
{
    if i < h {
        lemma_stations_skip_short(lines, i + 1, h);
    }
}

/// Parsing a table whose rows from `i` on are all data rows yields one
/// record per row, in row order.
proof fn lemma_stations_all_data(lines: Seq<Seq<char>>, i: int)
    requires
        HEADER_ROWS as int <= i <= lines.len(),
        forall|j: int| i <= j < lines.len() ==> spec_data_line(#[trigger] lines[j]),
    ensures
        spec_stations_from(lines, i) == Seq::new(
            (lines.len() - i) as nat,
            |j: int| spec_station_of(lines[i + j]),
        ),
    decreases lines.len() - i,
{
    if i == lines.len() {
        assert(spec_stations_from(lines, i) =~~= Seq::new(
            (lines.len() - i) as nat,
            |j: int| spec_station_of(lines[i + j]),
        ));
    } else {
        lemma_stations_all_data(lines, i + 1);
        assert(spec_stations_from(lines, i) =~~= Seq::new(
            (lines.len() - i) as nat,
            |j: int| spec_station_of(lines[i + j]),
        ));
    }
}

/// A well-formed station table — at least the header rows, then possibly
/// further short header-style rows up to row `h`, then data rows to the
/// end — parses to exactly one record per data row, in row order.
pub proof fn lemma_stations_of_table(lines: Seq<Seq<char>>, h: int)
    requires
        HEADER_ROWS as int <= h <= lines.len(),
        forall|j: int| HEADER_ROWS as int <= j < h ==> !spec_data_line(#[trigger] lines[j]),
        forall|j: int| h <= j < lines.len() ==> spec_data_line(#[trigger] lines[j]),
    ensures
        spec_stations_from(lines, 0) == Seq::new(
            (lines.len() - h) as nat,
            |j: int| spec_station_of(lines[h + j]),
        ),
        spec_stations_from(lines, 0).len() == lines.len() - h,
{
    lemma_stations_skip_short(lines, 0, h);
    lemma_stations_all_data(lines, h);
}

/// A line shorter than the minimum data width yields no record: removing
/// it from anywhere past the header region leaves the records unchanged.
pub proof fn lemma_short_line_skipped(lines: Seq<Seq<char>>, i: int)
    requires
        HEADER_ROWS as int <= i < lines.len(),
        !spec_data_line(lines[i]),
    ensures
        spec_stations_from(lines, 0) == spec_stations_from(lines.remove(i), 0),
{
    lemma_stations_remove_aux(lines, i, 0);
}

proof fn lemma_stations_remove_aux(lines: Seq<Seq<char>>, i: int, k: int)
    requires
        HEADER_ROWS as int <= i < lines.len(),
        !spec_data_line(lines[i]),
        0 <= k <= lines.len(),
    ensures
        k <= i ==> spec_stations_from(lines, k) == spec_stations_from(lines.remove(i), k),
        k > i ==> spec_stations_from(lines, k) == spec_stations_from(lines.remove(i), k - 1),
    decreases lines.len() - k,
{
    let r = lines.remove(i);
    if k == lines.len() {
    } else {
        lemma_stations_remove_aux(lines, i, k + 1);
        if k < i {
            assert(r[k] == lines[k]);
        } else if k == i {
        } else {
            assert(r[k - 1] == lines[k]);
        }
    }
}

/// The same, for the network table: a short line past the first data row
/// yields no record and its removal leaves the records unchanged.  (A
/// short line at the first-data-row position itself cannot be removed
/// without promoting the next row into that position.)
pub proof fn lemma_short_network_line_skipped(lines: Seq<Seq<char>>, i: int)
    requires
        (HEADER_ROWS as int) < i < lines.len(),
        !spec_data_line(lines[i]),
    ensures
        spec_networks_from(lines, 0) == spec_networks_from(lines.remove(i), 0),
{
    lemma_networks_remove_aux(lines, i, 0);
}

proof fn lemma_networks_remove_aux(lines: Seq<Seq<char>>, i: int, k: int)
    requires
        (HEADER_ROWS as int) < i < lines.len(),
        !spec_data_line(lines[i]),
        0 <= k <= lines.len(),
    ensures
        k <= i ==> spec_networks_from(lines, k) == spec_networks_from(lines.remove(i), k),
        k > i ==> spec_networks_from(lines, k) == spec_networks_from(lines.remove(i), k - 1),
    decreases lines.len() - k,
{
    let r = lines.remove(i);
    if k == lines.len() {
    } else {
        lemma_networks_remove_aux(lines, i, k + 1);
        if k < i {
            assert(r[k] == lines[k]);
        } else if k == i {
        } else {
            assert(r[k - 1] == lines[k]);
        }
    }
}

/// The first data row is cut at the shifted column range exactly when the
/// active-network marker stands at its defined column; without the marker
/// it is cut at the first row's default range.
pub proof fn lemma_first_row_marker(line: Seq<char>)
    requires
        spec_data_line(line),
    ensures
        line[NET_FIRST_MARKER_COL as int] == ACTIVE_MARKER ==> spec_network_of(line, true)
            == first_segment(
            clamp_cut(line, NET_FIRST_MARKED_START as int, NET_FIRST_MARKED_END as int),
        ),
        line[NET_FIRST_MARKER_COL as int] != ACTIVE_MARKER ==> spec_network_of(line, true)
            == first_segment(
            clamp_cut(line, NET_FIRST_PLAIN_START as int, NET_FIRST_PLAIN_END as int),
        ),
{
}

/// An extracted SSID is the prefix of its column cut before the first run
/// of two consecutive spaces: no such run occurs in the SSID, and either
/// the SSID is the whole cut or the run stands right after it.
pub proof fn lemma_ssid_stops_at_double_space(line: Seq<char>, first: bool)
    requires
        spec_data_line(line),
    ensures
        ({
            let cut = spec_network_cut(line, first);
            let ssid = spec_network_of(line, first);
            &&& ssid == cut.take(ssid.len() as int)
            &&& ssid.len() <= cut.len()
            &&& forall|i: int|
                0 <= i < ssid.len() && i + 1 < cut.len() ==> !((#[trigger] cut[i]) == ' ' && cut[i
                    + 1] == ' ')
            &&& ssid.len() < cut.len() ==> ssid.len() + 1 < cut.len() && cut[ssid.len() as int]
                == ' ' && cut[ssid.len() as int + 1] == ' '
        }),
{
    let cut = spec_network_cut(line, first);
    crate::text::lemma_seg_end(cut);
}

} // verus!
