use iwselect::cli::{parse_cli, unrecognized_argument_text, CliMode};
use iwselect::gateway::{
    connect_args, connect_succeeded, control_tool_name, disconnect_args, list_networks_args,
    list_stations_args, scan_args, scanning_notice,
};
use iwselect::flow::{
    network_prompt_label, passphrase_prompt_label, password_prompt_label, selected_prefix,
    station_prompt_label,
};

fn argv(args: &[&str]) -> Vec<String> {
    args.iter().map(|a| String::from(*a)).collect()
}

#[test]
fn tool_name_is_iwctl() {
    assert_eq!(control_tool_name(), "iwctl");
}

#[test]
fn station_listing_arguments() {
    assert_eq!(list_stations_args(), argv(&["station", "list"]));
}

#[test]
fn scan_arguments() {
    assert_eq!(scan_args("wlan0"), argv(&["station", "wlan0", "scan"]));
}

#[test]
fn network_listing_arguments() {
    assert_eq!(list_networks_args("wlan0"), argv(&["station", "wlan0", "get-networks"]));
}

#[test]
fn connect_arguments_without_passphrase() {
    assert_eq!(
        connect_args("wlan0", "HomeNet", &None),
        argv(&["station", "wlan0", "connect", "HomeNet"])
    );
}

#[test]
fn connect_arguments_with_passphrase() {
    assert_eq!(
        connect_args("wlan0", "HomeNet", &Some(String::from("hunter2"))),
        argv(&["station", "wlan0", "connect", "HomeNet", "--passphrase", "hunter2"])
    );
}

#[test]
fn disconnect_arguments() {
    assert_eq!(disconnect_args("wlan0"), argv(&["station", "wlan0", "disconnect"]));
}

#[test]
fn nonempty_output_reads_as_success() {
    assert!(connect_succeeded(&vec![b'o', b'k']));
    assert!(!connect_succeeded(&Vec::new()));
}

#[test]
fn no_argument_runs_interactive_flow() {
    assert_eq!(parse_cli(&argv(&["prog"])), CliMode::Interactive);
    assert_eq!(parse_cli(&Vec::new()), CliMode::Interactive);
}

#[test]
fn disconnect_argument_selects_disconnect() {
    assert_eq!(parse_cli(&argv(&["prog", "disconnect"])), CliMode::Disconnect);
    assert_eq!(parse_cli(&argv(&["prog", "disconnect", "extra"])), CliMode::Disconnect);
}

#[test]
fn other_argument_is_unrecognized() {
    assert_eq!(parse_cli(&argv(&["prog", "connect"])), CliMode::Unrecognized);
    assert_eq!(parse_cli(&argv(&["prog", "Disconnect"])), CliMode::Unrecognized);
    assert_eq!(unrecognized_argument_text(), "Unrecognized argument");
}

#[test]
fn console_texts_are_fixed() {
    assert_eq!(station_prompt_label(), "Select your station");
    assert_eq!(network_prompt_label(), "Select your network");
    assert_eq!(password_prompt_label(), "Is there a password? Y/n");
    assert_eq!(passphrase_prompt_label(), "Password");
    assert_eq!(selected_prefix(), "You selected: ");
    assert_eq!(scanning_notice(), "Scanning");
}
