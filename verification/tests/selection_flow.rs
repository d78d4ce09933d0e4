use iwselect::flow::{
    classify_password_answer, flow_init, flow_step, message_text, select_index, FlowAction,
    FlowEvent, FlowMessage, FlowState, PasswordMode,
};
use iwselect::parse::Station;

fn station(name: &str, scanning: bool) -> Station {
    Station { name: String::from(name), scanning }
}

fn nets(names: &[&str]) -> Vec<String> {
    names.iter().map(|n| String::from(*n)).collect()
}

#[test]
fn flow_starts_by_fetching_stations() {
    let (state, action) = flow_init(false);
    assert!(matches!(state, FlowState::StationDiscovery { disconnect: false }));
    assert!(matches!(action, FlowAction::FetchStations));
}

#[test]
fn no_stations_ends_with_message() {
    let (state, action) = flow_step(
        FlowState::StationDiscovery { disconnect: false },
        FlowEvent::Stations(Vec::new()),
    );
    assert!(matches!(state, FlowState::Finished));
    match action {
        FlowAction::Report { message } => assert_eq!(message, FlowMessage::NoStations),
        _ => panic!("expected a report"),
    }
}

#[test]
fn single_station_bypasses_prompt() {
    let (state, action) = flow_step(
        FlowState::StationDiscovery { disconnect: false },
        FlowEvent::Stations(vec![station("wlan0", false)]),
    );
    match state {
        FlowState::NetworkDiscovery { station } => assert_eq!(station.name, "wlan0"),
        _ => panic!("expected network discovery without a prompt"),
    }
    match action {
        FlowAction::FetchNetworks { station, scan_first } => {
            assert_eq!(station, "wlan0");
            assert!(scan_first);
        }
        _ => panic!("expected a fetch, not a prompt"),
    }
}

#[test]
fn single_scanning_station_skips_scan() {
    let (_, action) = flow_step(
        FlowState::StationDiscovery { disconnect: false },
        FlowEvent::Stations(vec![station("wlan0", true)]),
    );
    match action {
        FlowAction::FetchNetworks { scan_first, .. } => assert!(!scan_first),
        _ => panic!("expected a fetch"),
    }
}

#[test]
fn several_stations_prompt_in_order() {
    let (state, action) = flow_step(
        FlowState::StationDiscovery { disconnect: false },
        FlowEvent::Stations(vec![station("wlan0", false), station("wlan1", false)]),
    );
    assert!(matches!(state, FlowState::StationSelection { .. }));
    match action {
        FlowAction::PromptStationChoice { names } => assert_eq!(names, nets(&["wlan0", "wlan1"])),
        _ => panic!("expected a station prompt"),
    }
}

#[test]
fn disconnect_targets_first_station_without_prompt() {
    let (state, action) = flow_step(
        FlowState::StationDiscovery { disconnect: true },
        FlowEvent::Stations(vec![station("wlan0", false), station("wlan1", false)]),
    );
    assert!(matches!(state, FlowState::Finished));
    match action {
        FlowAction::Disconnect { station } => assert_eq!(station, "wlan0"),
        _ => panic!("expected a disconnect"),
    }
}

#[test]
fn disconnect_with_no_stations_reports() {
    let (_, action) = flow_step(
        FlowState::StationDiscovery { disconnect: true },
        FlowEvent::Stations(Vec::new()),
    );
    match action {
        FlowAction::Report { message } => assert_eq!(message, FlowMessage::NoStations),
        _ => panic!("expected a report"),
    }
}

#[test]
fn station_choice_by_index() {
    let (state, action) = flow_step(
        FlowState::StationSelection {
            stations: vec![station("wlan0", false), station("wlan1", true)],
        },
        FlowEvent::Line(String::from("1")),
    );
    match state {
        FlowState::NetworkDiscovery { station } => assert_eq!(station.name, "wlan1"),
        _ => panic!("expected network discovery"),
    }
    match action {
        FlowAction::FetchNetworks { station, scan_first } => {
            assert_eq!(station, "wlan1");
            assert!(!scan_first);
        }
        _ => panic!("expected a fetch"),
    }
}

#[test]
fn station_index_at_boundary_rejected() {
    // The list has two entries, so index 2 is already out of range.
    let (state, action) = flow_step(
        FlowState::StationSelection {
            stations: vec![station("wlan0", false), station("wlan1", false)],
        },
        FlowEvent::Line(String::from("2")),
    );
    assert!(matches!(state, FlowState::Finished));
    match action {
        FlowAction::Report { message } => assert_eq!(message, FlowMessage::InvalidStation),
        _ => panic!("expected a report"),
    }
}

#[test]
fn unparsable_station_index_rejected() {
    let (_, action) = flow_step(
        FlowState::StationSelection {
            stations: vec![station("wlan0", false), station("wlan1", false)],
        },
        FlowEvent::Line(String::from("first")),
    );
    match action {
        FlowAction::Report { message } => assert_eq!(message, FlowMessage::InvalidStation),
        _ => panic!("expected a report"),
    }
}

#[test]
fn networks_prompted_in_order() {
    let (state, action) = flow_step(
        FlowState::NetworkDiscovery { station: station("wlan0", false) },
        FlowEvent::Networks(nets(&["HomeNet", "CoffeeShop", "Library"])),
    );
    assert!(matches!(state, FlowState::NetworkSelection { .. }));
    match action {
        FlowAction::PromptNetworkChoice { names } => {
            assert_eq!(names, nets(&["HomeNet", "CoffeeShop", "Library"]));
        }
        _ => panic!("expected a network prompt"),
    }
}

#[test]
fn no_networks_reports() {
    let (state, action) = flow_step(
        FlowState::NetworkDiscovery { station: station("wlan0", false) },
        FlowEvent::Networks(Vec::new()),
    );
    assert!(matches!(state, FlowState::Finished));
    match action {
        FlowAction::Report { message } => assert_eq!(message, FlowMessage::NoNetworks),
        _ => panic!("expected a report"),
    }
}

#[test]
fn out_of_range_network_choice_reports_not_a_network() {
    // Three networks, the user enters 5: rejected with the exact message.
    let (state, action) = flow_step(
        FlowState::NetworkSelection {
            station: station("wlan0", false),
            networks: nets(&["HomeNet", "CoffeeShop", "Library"]),
        },
        FlowEvent::Line(String::from("5")),
    );
    assert!(matches!(state, FlowState::Finished));
    match action {
        FlowAction::Report { message } => {
            assert_eq!(message, FlowMessage::InvalidNetwork);
            assert_eq!(message_text(message), "Not a network buddy");
        }
        _ => panic!("expected a report, not a connect"),
    }
}

#[test]
fn network_choice_moves_to_password_query() {
    let (state, action) = flow_step(
        FlowState::NetworkSelection {
            station: station("wlan0", false),
            networks: nets(&["HomeNet", "CoffeeShop"]),
        },
        FlowEvent::Line(String::from("0")),
    );
    match state {
        FlowState::PasswordQuery { ssid, .. } => assert_eq!(ssid, "HomeNet"),
        _ => panic!("expected the password query"),
    }
    match action {
        FlowAction::PromptPasswordMode { ssid } => assert_eq!(ssid, "HomeNet"),
        _ => panic!("expected the password prompt"),
    }
}

#[test]
fn password_answers_classified() {
    assert_eq!(classify_password_answer(""), PasswordMode::Protected);
    assert_eq!(classify_password_answer("y"), PasswordMode::Protected);
    assert_eq!(classify_password_answer("Y"), PasswordMode::Protected);
    assert_eq!(classify_password_answer("n"), PasswordMode::Open);
    assert_eq!(classify_password_answer("N"), PasswordMode::Open);
    assert_eq!(classify_password_answer("maybe"), PasswordMode::Unrecognized);
    assert_eq!(classify_password_answer("yes"), PasswordMode::Unrecognized);
}

#[test]
fn affirmative_answer_asks_for_passphrase() {
    for answer in ["", "y", "Y"] {
        let (state, action) = flow_step(
            FlowState::PasswordQuery {
                station: station("wlan0", false),
                ssid: String::from("HomeNet"),
            },
            FlowEvent::Line(String::from(answer)),
        );
        assert!(matches!(state, FlowState::PassphraseQuery { .. }));
        assert!(matches!(action, FlowAction::PromptPassphrase));
    }
}

#[test]
fn negative_answer_connects_without_credential() {
    for answer in ["n", "N"] {
        let (state, action) = flow_step(
            FlowState::PasswordQuery {
                station: station("wlan0", false),
                ssid: String::from("HomeNet"),
            },
            FlowEvent::Line(String::from(answer)),
        );
        assert!(matches!(state, FlowState::Finished));
        match action {
            FlowAction::Connect { station, ssid, passphrase } => {
                assert_eq!(station, "wlan0");
                assert_eq!(ssid, "HomeNet");
                assert!(passphrase.is_none());
            }
            _ => panic!("expected a connect"),
        }
    }
}

#[test]
fn other_answer_ends_without_connect() {
    let (state, action) = flow_step(
        FlowState::PasswordQuery {
            station: station("wlan0", false),
            ssid: String::from("HomeNet"),
        },
        FlowEvent::Line(String::from("maybe")),
    );
    assert!(matches!(state, FlowState::Finished));
    match action {
        FlowAction::Report { message } => assert_eq!(message, FlowMessage::UnrecognizedAnswer),
        _ => panic!("expected a report, not a connect"),
    }
}

#[test]
fn passphrase_connects_with_credential() {
    let (state, action) = flow_step(
        FlowState::PassphraseQuery {
            station: station("wlan0", false),
            ssid: String::from("HomeNet"),
        },
        FlowEvent::Line(String::from("hunter2")),
    );
    assert!(matches!(state, FlowState::Finished));
    match action {
        FlowAction::Connect { station, ssid, passphrase } => {
            assert_eq!(station, "wlan0");
            assert_eq!(ssid, "HomeNet");
            assert_eq!(passphrase.as_deref(), Some("hunter2"));
        }
        _ => panic!("expected a connect"),
    }
}

#[test]
fn finished_flow_stops() {
    let (state, action) = flow_step(FlowState::Finished, FlowEvent::Line(String::from("x")));
    assert!(matches!(state, FlowState::Finished));
    assert!(matches!(action, FlowAction::Stop));
}

#[test]
fn mismatched_event_stops() {
    let (state, action) = flow_step(
        FlowState::StationDiscovery { disconnect: false },
        FlowEvent::Line(String::from("0")),
    );
    assert!(matches!(state, FlowState::Finished));
    assert!(matches!(action, FlowAction::Stop));
}

#[test]
fn select_index_bounds() {
    assert_eq!(select_index("0", 3), Some(0));
    assert_eq!(select_index("2", 3), Some(2));
    assert_eq!(select_index("3", 3), None);
    assert_eq!(select_index("10", 11), Some(10));
    assert_eq!(select_index("", 3), None);
    assert_eq!(select_index("two", 3), None);
    assert_eq!(select_index("007", 8), Some(7));
    assert_eq!(select_index("99999999999999999999999999", 3), None);
}

#[test]
fn messages_have_exact_texts() {
    assert_eq!(message_text(FlowMessage::NoStations), "No stations found");
    assert_eq!(message_text(FlowMessage::InvalidStation), "Not a station buddy");
    assert_eq!(message_text(FlowMessage::NoNetworks), "No networks found");
    assert_eq!(message_text(FlowMessage::InvalidNetwork), "Not a network buddy");
    assert_eq!(message_text(FlowMessage::UnrecognizedAnswer), "Unrecognized response");
}
