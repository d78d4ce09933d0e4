//! The interactive selection flow, as a state machine: from the list of
//! discovered stations through network choice and credential entry to the
//! final connect or disconnect command.
//!
//! The machine owns every decision; the unverified shell around it only
//! performs the actions it asks for — spawn the control tool, print an
//! enumerated list, read one console line — and hands the outcome back as
//! the next event.  One run is linear: a rejected selection or an
//! unrecognized answer ends the flow with a message, as the tool's single
//! pass over station, network and credential has no retry loop.

use vstd::prelude::*;

use crate::parse::Station;
use crate::parse::StationView;
use crate::parse::station_views;
use crate::text::all_digits;
use crate::text::digits_val;
use crate::text::parse_index;
use crate::text::views_of;

verus! {

/// How the user answered the "is there a password?" prompt: `y`, `Y` and
/// the empty answer mean protected, `n` and `N` mean open, and anything
/// else is surfaced as unrecognized.
#[derive(Clone, Copy, PartialEq, Eq, Structural, Debug)]
pub enum PasswordMode {
    Protected,
    Open,
    Unrecognized,
}

/// The password mode that one console answer denotes.
pub open spec fn spec_classify_answer(s: Seq<char>) -> PasswordMode {
    if s.len() == 0 || (s.len() == 1 && (s[0] == 'y' || s[0] == 'Y')) {
        PasswordMode::Protected
    } else if s.len() == 1 && (s[0] == 'n' || s[0] == 'N') {
        PasswordMode::Open
    } else {
        PasswordMode::Unrecognized
    }
}

/// Classifies the answer to the "is there a password?" prompt.
pub fn classify_password_answer(s: &str) -> (r: PasswordMode)
    ensures
        r == spec_classify_answer(s@),
{
    let n = s.unicode_len();
    if n == 0 {
        return PasswordMode::Protected;
    }
    if n == 1 {
        let c = s.get_char(0);
        if c == 'y' || c == 'Y' {
            return PasswordMode::Protected;
        }
        if c == 'n' || c == 'N' {
            return PasswordMode::Open;
        }
    }
    PasswordMode::Unrecognized
}

/// The entry a console answer selects from a list of `len` entries: its
/// index when the answer is a decimal number below `len`, nothing when
/// the answer is unparsable or out of range.
pub open spec fn spec_selection(input: Seq<char>, len: int) -> Option<int> {
    if input.len() > 0 && all_digits(input) && digits_val(input) < len {
        Some(digits_val(input) as int)
    } else {
        None
    }
}

/// Resolves a console answer against a list of `len` entries.  Rejection
/// is exclusive at the boundary: an answer equal to `len` is out of range.
pub fn select_index(input: &str, len: usize) -> (r: Option<usize>)
    ensures
        match r {
            Some(n) => spec_selection(input@, len as int) == Some(n as int),
            None => spec_selection(input@, len as int) is None,
        },
{
    match parse_index(input) {
        Some(n) => if n < len {
            Some(n)
        } else {
            None
        },
        None => None,
    }
}

/// The messages with which the flow can end early.
#[derive(Clone, Copy, PartialEq, Eq, Structural, Debug)]
pub enum FlowMessage {
    /// The station table held no station.
    NoStations,
    /// The station selection was unparsable or out of range.
    InvalidStation,
    /// The network table held no network.
    NoNetworks,
    /// The network selection was unparsable or out of range.
    InvalidNetwork,
    /// The password answer was neither affirmative nor negative.
    UnrecognizedAnswer,
}

/// The console text of each early-exit message.
pub open spec fn spec_message_text(m: FlowMessage) -> Seq<char> {
    match m {
        FlowMessage::NoStations => "No stations found"@,
        FlowMessage::InvalidStation => "Not a station buddy"@,
        FlowMessage::NoNetworks => "No networks found"@,
        FlowMessage::InvalidNetwork => "Not a network buddy"@,
        FlowMessage::UnrecognizedAnswer => "Unrecognized response"@,
    }
}

/// The console text of one early-exit message.
pub fn message_text(m: FlowMessage) -> (r: String)
    ensures
        r@ == spec_message_text(m),
{
    match m {
        FlowMessage::NoStations => String::from_str("No stations found"),
        FlowMessage::InvalidStation => String::from_str("Not a station buddy"),
        FlowMessage::NoNetworks => String::from_str("No networks found"),
        FlowMessage::InvalidNetwork => String::from_str("Not a network buddy"),
        FlowMessage::UnrecognizedAnswer => String::from_str("Unrecognized response"),
    }
}

/// Where the flow stands: what it has discovered or chosen so far, and
/// which outcome it is waiting for.
pub enum FlowState {
    /// Waiting for the station table.  In disconnect mode the first
    /// station is resolved without any prompt.
    StationDiscovery { disconnect: bool },
    /// Several stations were found; waiting for the user's index.
    StationSelection { stations: Vec<Station> },
    /// A station is chosen; waiting for its network table.
    NetworkDiscovery { station: Station },
    /// Networks were found; waiting for the user's index.
    NetworkSelection { station: Station, networks: Vec<String> },
    /// A network is chosen; waiting for the password-mode answer.
    PasswordQuery { station: Station, ssid: String },
    /// The network is password-protected; waiting for the passphrase.
    PassphraseQuery { station: Station, ssid: String },
    /// The flow is over; no further event is expected.
    Finished,
}

/// The mathematical content of a [`FlowState`].
pub enum FlowStateView {
    StationDiscovery { disconnect: bool },
    StationSelection { stations: Seq<StationView> },
    NetworkDiscovery { station: StationView },
    NetworkSelection { station: StationView, networks: Seq<Seq<char>> },
    PasswordQuery { station: StationView, ssid: Seq<char> },
    PassphraseQuery { station: StationView, ssid: Seq<char> },
    Finished,
}

impl View for FlowState {
    type V = FlowStateView;

    open spec fn view(&self) -> FlowStateView {
        match self {
            FlowState::StationDiscovery { disconnect } => FlowStateView::StationDiscovery {
                disconnect: *disconnect,
            },
            FlowState::StationSelection { stations } => FlowStateView::StationSelection {
                stations: station_views(stations@),
            },
            FlowState::NetworkDiscovery { station } => FlowStateView::NetworkDiscovery {
                station: station@,
            },
            FlowState::NetworkSelection { station, networks } => FlowStateView::NetworkSelection {
                station: station@,
                networks: views_of(networks@),
            },
            FlowState::PasswordQuery { station, ssid } => FlowStateView::PasswordQuery {
                station: station@,
                ssid: ssid@,
            },
            FlowState::PassphraseQuery { station, ssid } => FlowStateView::PassphraseQuery {
                station: station@,
                ssid: ssid@,
            },
            FlowState::Finished => FlowStateView::Finished,
        }
    }
}

/// What the outside world reports back to the flow.
pub enum FlowEvent {
    /// The parsed station table.
    Stations(Vec<Station>),
    /// The parsed network table for the chosen station.
    Networks(Vec<String>),
    /// One line read from the console, line ending removed.
    Line(String),
}

/// The mathematical content of a [`FlowEvent`].
pub enum FlowEventView {
    Stations(Seq<StationView>),
    Networks(Seq<Seq<char>>),
    Line(Seq<char>),
}

impl View for FlowEvent {
    type V = FlowEventView;

    open spec fn view(&self) -> FlowEventView {
        match self {
            FlowEvent::Stations(sts) => FlowEventView::Stations(station_views(sts@)),
            FlowEvent::Networks(nets) => FlowEventView::Networks(views_of(nets@)),
            FlowEvent::Line(input) => FlowEventView::Line(input@),
        }
    }
}

/// What the flow asks the outside world to do next.
pub enum FlowAction {
    /// Run the station listing and report the parsed table.
    FetchStations,
    /// Print the enumerated names and ask for a station index.
    PromptStationChoice { names: Vec<String> },
    /// Scan first when no scan runs yet, then run the network listing for
    /// the station and report the parsed table.
    FetchNetworks { station: String, scan_first: bool },
    /// Print the enumerated SSIDs and ask for a network index.
    PromptNetworkChoice { names: Vec<String> },
    /// Announce the chosen SSID and ask whether it has a password.
    PromptPasswordMode { ssid: String },
    /// Ask for the passphrase.
    PromptPassphrase,
    /// Issue the connect command.
    Connect { station: String, ssid: String, passphrase: Option<String> },
    /// Issue the disconnect command.
    Disconnect { station: String },
    /// Print an early-exit message.
    Report { message: FlowMessage },
    /// Nothing: the flow was already over.
    Stop,
}

/// The mathematical content of a [`FlowAction`].
pub enum FlowActionView {
    FetchStations,
    PromptStationChoice { names: Seq<Seq<char>> },
    FetchNetworks { station: Seq<char>, scan_first: bool },
    PromptNetworkChoice { names: Seq<Seq<char>> },
    PromptPasswordMode { ssid: Seq<char> },
    PromptPassphrase,
    Connect { station: Seq<char>, ssid: Seq<char>, passphrase: Option<Seq<char>> },
    Disconnect { station: Seq<char> },
    Report { message: FlowMessage },
    Stop,
}

impl View for FlowAction {
    type V = FlowActionView;

    open spec fn view(&self) -> FlowActionView {
        match self {
            FlowAction::FetchStations => FlowActionView::FetchStations,
            FlowAction::PromptStationChoice { names } => FlowActionView::PromptStationChoice {
                names: views_of(names@),
            },
            FlowAction::FetchNetworks { station, scan_first } => FlowActionView::FetchNetworks {
                station: station@,
                scan_first: *scan_first,
            },
            FlowAction::PromptNetworkChoice { names } => FlowActionView::PromptNetworkChoice {
                names: views_of(names@),
            },
            FlowAction::PromptPasswordMode { ssid } => FlowActionView::PromptPasswordMode {
                ssid: ssid@,
            },
            FlowAction::PromptPassphrase => FlowActionView::PromptPassphrase,
            FlowAction::Connect { station, ssid, passphrase } => FlowActionView::Connect {
                station: station@,
                ssid: ssid@,
                passphrase: match passphrase {
                    Some(p) => Some(p@),
                    None => None,
                },
            },
            FlowAction::Disconnect { station } => FlowActionView::Disconnect { station: station@ },
            FlowAction::Report { message } => FlowActionView::Report { message: *message },
            FlowAction::Stop => FlowActionView::Stop,
        }
    }
}

/// The names of a sequence of stations, in order.
pub open spec fn station_names_of(v: Seq<StationView>) -> Seq<Seq<char>> {
    v.map_values(|sv: StationView| sv.name)
}

/// The state and action with which every run of the flow begins.
pub open spec fn spec_flow_init(disconnect: bool) -> (FlowStateView, FlowActionView) {
    (FlowStateView::StationDiscovery { disconnect }, FlowActionView::FetchStations)
}

/// One step of the flow: the state it moves to and the action it asks
/// for, given where it stands and what just happened.
pub open spec fn spec_flow_step(state: FlowStateView, event: FlowEventView) -> (
    FlowStateView,
    FlowActionView,
) {
    match (state, event) {
        (FlowStateView::StationDiscovery { disconnect }, FlowEventView::Stations(sts)) => {
            if sts.len() == 0 {
                (
                    FlowStateView::Finished,
                    FlowActionView::Report { message: FlowMessage::NoStations },
                )
            } else if disconnect {
                (FlowStateView::Finished, FlowActionView::Disconnect { station: sts[0].name })
            } else if sts.len() == 1 {
                (
                    FlowStateView::NetworkDiscovery { station: sts[0] },
                    FlowActionView::FetchNetworks {
                        station: sts[0].name,
                        scan_first: !sts[0].scanning,
                    },
                )
            } else {
                (
                    FlowStateView::StationSelection { stations: sts },
                    FlowActionView::PromptStationChoice { names: station_names_of(sts) },
                )
            }
        },
        (FlowStateView::StationSelection { stations }, FlowEventView::Line(input)) => {
            match spec_selection(input, stations.len() as int) {
                Some(n) => (
                    FlowStateView::NetworkDiscovery { station: stations[n] },
                    FlowActionView::FetchNetworks {
                        station: stations[n].name,
                        scan_first: !stations[n].scanning,
                    },
                ),
                None => (
                    FlowStateView::Finished,
                    FlowActionView::Report { message: FlowMessage::InvalidStation },
                ),
            }
        },
        (FlowStateView::NetworkDiscovery { station }, FlowEventView::Networks(nets)) => {
            if nets.len() == 0 {
                (
                    FlowStateView::Finished,
                    FlowActionView::Report { message: FlowMessage::NoNetworks },
                )
            } else {
                (
                    FlowStateView::NetworkSelection { station, networks: nets },
                    FlowActionView::PromptNetworkChoice { names: nets },
                )
            }
        },
        (FlowStateView::NetworkSelection { station, networks }, FlowEventView::Line(input)) => {
            match spec_selection(input, networks.len() as int) {
                Some(n) => (
                    FlowStateView::PasswordQuery { station, ssid: networks[n] },
                    FlowActionView::PromptPasswordMode { ssid: networks[n] },
                ),
                None => (
                    FlowStateView::Finished,
                    FlowActionView::Report { message: FlowMessage::InvalidNetwork },
                ),
            }
        },
        (FlowStateView::PasswordQuery { station, ssid }, FlowEventView::Line(answer)) => {
            match spec_classify_answer(answer) {
                PasswordMode::Protected => (
                    FlowStateView::PassphraseQuery { station, ssid },
                    FlowActionView::PromptPassphrase,
                ),
                PasswordMode::Open => (
                    FlowStateView::Finished,
                    FlowActionView::Connect { station: station.name, ssid, passphrase: None },
                ),
                PasswordMode::Unrecognized => (
                    FlowStateView::Finished,
                    FlowActionView::Report { message: FlowMessage::UnrecognizedAnswer },
                ),
            }
        },
        (FlowStateView::PassphraseQuery { station, ssid }, FlowEventView::Line(pw)) => (
            FlowStateView::Finished,
            FlowActionView::Connect { station: station.name, ssid, passphrase: Some(pw) },
        ),
        _ => (FlowStateView::Finished, FlowActionView::Stop),
    }
}

/// Begins a run of the flow: in either mode, the first action fetches the
/// station table.
pub fn flow_init(disconnect: bool) -> (r: (FlowState, FlowAction))
    ensures
        (r.0@, r.1@) == spec_flow_init(disconnect),
{
    (FlowState::StationDiscovery { disconnect }, FlowAction::FetchStations)
}

/// The names of the given stations, in order, for an enumerated prompt.
fn station_names(stations: &Vec<Station>) -> (r: Vec<String>)
    ensures
        views_of(r@) == station_names_of(station_views(stations@)),
{
    let mut r: Vec<String> = Vec::new();
    let mut i: usize = 0;
    while i < stations.len()
        invariant
            0 <= i <= stations@.len(),
            r@.len() == i,
            forall|j: int| 0 <= j < i ==> (#[trigger] r@[j])@ == stations@[j]@.name,
        decreases stations@.len() - i,
    {
        r.push(stations[i].name.clone());
        i = i + 1;
    }
    proof {
        assert(views_of(r@) =~~= station_names_of(station_views(stations@)));
    }
    r
}

/// A copy of the given strings, in order.
fn clone_strings(v: &Vec<String>) -> (r: Vec<String>)
    ensures
        views_of(r@) == views_of(v@),
{
    let mut r: Vec<String> = Vec::new();
    let mut i: usize = 0;
    while i < v.len()
        invariant
            0 <= i <= v@.len(),
            r@.len() == i,
            forall|j: int| 0 <= j < i ==> r@[j] == v@[j],
        decreases v@.len() - i,
    {
        r.push(v[i].clone());
        i = i + 1;
    }
    proof {
        assert(r@ =~= v@);
    }
    r
}

/// Performs one step of the flow.
pub fn flow_step(state: FlowState, event: FlowEvent) -> (r: (FlowState, FlowAction))
    ensures
        (r.0@, r.1@) == spec_flow_step(state@, event@),
{
    match (state, event) {
        (FlowState::StationDiscovery { disconnect }, FlowEvent::Stations(sts)) => {
            if sts.len() == 0 {
                (FlowState::Finished, FlowAction::Report { message: FlowMessage::NoStations })
            } else if disconnect {
                let name = sts[0].name.clone();
                (FlowState::Finished, FlowAction::Disconnect { station: name })
            } else if sts.len() == 1 {
                let st = sts[0].clone();
                let name = st.name.clone();
                let scan_first = !st.scanning;
                (
                    FlowState::NetworkDiscovery { station: st },
                    FlowAction::FetchNetworks { station: name, scan_first },
                )
            } else {
                let names = station_names(&sts);
                (
                    FlowState::StationSelection { stations: sts },
                    FlowAction::PromptStationChoice { names },
                )
            }
        },
        (FlowState::StationSelection { stations }, FlowEvent::Line(input)) => {
            match select_index(input.as_str(), stations.len()) {
                Some(n) => {
                    let st = stations[n].clone();
                    let name = st.name.clone();
                    let scan_first = !st.scanning;
                    (
                        FlowState::NetworkDiscovery { station: st },
                        FlowAction::FetchNetworks { station: name, scan_first },
                    )
                },
                None => (
                    FlowState::Finished,
                    FlowAction::Report { message: FlowMessage::InvalidStation },
                ),
            }
        },
        (FlowState::NetworkDiscovery { station }, FlowEvent::Networks(nets)) => {
            if nets.len() == 0 {
                (FlowState::Finished, FlowAction::Report { message: FlowMessage::NoNetworks })
            } else {
                let names = clone_strings(&nets);
                (
                    FlowState::NetworkSelection { station, networks: nets },
                    FlowAction::PromptNetworkChoice { names },
                )
            }
        },
        (FlowState::NetworkSelection { station, networks }, FlowEvent::Line(input)) => {
            match select_index(input.as_str(), networks.len()) {
                Some(n) => {
                    let ssid = networks[n].clone();
                    let ssid2 = ssid.clone();
                    (
                        FlowState::PasswordQuery { station, ssid },
                        FlowAction::PromptPasswordMode { ssid: ssid2 },
                    )
                },
                None => (
                    FlowState::Finished,
                    FlowAction::Report { message: FlowMessage::InvalidNetwork },
                ),
            }
        },
        (FlowState::PasswordQuery { station, ssid }, FlowEvent::Line(answer)) => {
            match classify_password_answer(answer.as_str()) {
                PasswordMode::Protected => (
                    FlowState::PassphraseQuery { station, ssid },
                    FlowAction::PromptPassphrase,
                ),
                PasswordMode::Open => (
                    FlowState::Finished,
                    FlowAction::Connect { station: station.name, ssid, passphrase: None },
                ),
                PasswordMode::Unrecognized => (
                    FlowState::Finished,
                    FlowAction::Report { message: FlowMessage::UnrecognizedAnswer },
                ),
            }
        },
        (FlowState::PassphraseQuery { station, ssid }, FlowEvent::Line(pw)) => (
            FlowState::Finished,
            FlowAction::Connect { station: station.name, ssid, passphrase: Some(pw) },
        ),
        (_, _) => (FlowState::Finished, FlowAction::Stop),
    }
}

/// With exactly one station discovered, the interactive flow selects it
/// without prompting: the step moves straight to network discovery and
/// its action fetches that station's networks.
pub proof fn lemma_single_station_bypasses_prompt(sts: Seq<StationView>)
    requires
        sts.len() == 1,
    ensures
        spec_flow_step(
            FlowStateView::StationDiscovery { disconnect: false },
            FlowEventView::Stations(sts),
        ) == (
            FlowStateView::NetworkDiscovery { station: sts[0] },
            FlowActionView::FetchNetworks { station: sts[0].name, scan_first: !sts[0].scanning },
        ),
{
}

/// The password answer decides the step out of the password query: an
/// affirmative or empty answer asks for a passphrase, a negative answer
/// connects without credential, and anything else ends the flow with the
/// unrecognized-answer message and no connect attempt.
pub proof fn lemma_password_answer_decides(st: StationView, ssid: Seq<char>, answer: Seq<char>)
    ensures
        spec_classify_answer(answer) == PasswordMode::Protected ==> spec_flow_step(
            FlowStateView::PasswordQuery { station: st, ssid },
            FlowEventView::Line(answer),
        ) == (
            FlowStateView::PassphraseQuery { station: st, ssid },
            FlowActionView::PromptPassphrase,
        ),
        spec_classify_answer(answer) == PasswordMode::Open ==> spec_flow_step(
            FlowStateView::PasswordQuery { station: st, ssid },
            FlowEventView::Line(answer),
        ) == (
            FlowStateView::Finished,
            FlowActionView::Connect { station: st.name, ssid, passphrase: None },
        ),
        spec_classify_answer(answer) == PasswordMode::Unrecognized ==> spec_flow_step(
            FlowStateView::PasswordQuery { station: st, ssid },
            FlowEventView::Line(answer),
        ) == (
            FlowStateView::Finished,
            FlowActionView::Report { message: FlowMessage::UnrecognizedAnswer },
        ),
{
}

/// The prompt label printed before reading a station index.
pub fn station_prompt_label() -> (r: String)
    ensures
        r@ == "Select your station"@,
{
    String::from_str("Select your station")
}

/// The prompt label printed before reading a network index.
pub fn network_prompt_label() -> (r: String)
    ensures
        r@ == "Select your network"@,
{
    String::from_str("Select your network")
}

/// The prompt label printed before reading the password-mode answer.
pub fn password_prompt_label() -> (r: String)
    ensures
        r@ == "Is there a password? Y/n"@,
{
    String::from_str("Is there a password? Y/n")
}

/// The prompt label printed before reading the passphrase.
pub fn passphrase_prompt_label() -> (r: String)
    ensures
        r@ == "Password"@,
{
    String::from_str("Password")
}

/// The text printed, followed by the SSID, once a network is chosen.
pub fn selected_prefix() -> (r: String)
    ensures
        r@ == "You selected: "@,
{
    String::from_str("You selected: ")
}

} // verus!
