use sudachi_front::lifecycle::{startup_action, LoadOutcome, StartupAction, LISTEN_PORT};

#[test]
fn a_loaded_dictionary_is_served_on_the_loopback_port() {
    match startup_action(LoadOutcome::Loaded) {
        StartupAction::Serve { host, port } => {
            assert_eq!(host, "127.0.0.1");
            assert_eq!(port, 2971);
            assert_eq!(port, LISTEN_PORT);
        }
        StartupAction::Abort { message, .. } => panic!("aborted: {}", message),
    }
}

#[test]
fn a_failed_dictionary_is_never_served() {
    match startup_action(LoadOutcome::DictionaryFailed) {
        StartupAction::Abort { message, exit_status } => {
            assert_eq!(message, "sudachi dict load err");
            assert_eq!(exit_status, 1);
        }
        StartupAction::Serve { .. } => panic!("served without a dictionary"),
    }
}

#[test]
fn a_failed_configuration_is_never_served() {
    match startup_action(LoadOutcome::ConfigurationFailed) {
        StartupAction::Abort { message, exit_status } => {
            assert_eq!(message, "sudachi dict load err");
            assert_eq!(exit_status, 1);
        }
        StartupAction::Serve { .. } => panic!("served without a dictionary"),
    }
}
