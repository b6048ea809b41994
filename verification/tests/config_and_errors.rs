use homewatch::config::build_trigger_args;
use homewatch::errors::Errors;

#[test]
fn zero_arguments_is_an_immediate_invalid_params_error() {
    // Running with no command to execute fails fatally before any device
    // work is attempted.
    assert!(matches!(build_trigger_args(vec![]), Err(Errors::InvalidParams)));
}

#[test]
fn a_single_word_becomes_the_command_with_no_arguments() {
    let t = build_trigger_args(vec!["steam".to_string()]).expect("one word is enough");
    assert_eq!(t.command, "steam");
    assert!(t.args.is_empty());
}

#[test]
fn the_first_word_is_the_command_and_the_rest_its_arguments() {
    let words = vec!["notify-send".to_string(), "home".to_string(), "pressed".to_string()];
    let t = build_trigger_args(words).expect("three words are valid");
    assert_eq!(t.command, "notify-send");
    assert_eq!(t.args, vec!["home".to_string(), "pressed".to_string()]);
}

#[test]
fn every_error_variant_has_its_message() {
    assert_eq!(
        Errors::UdevSubsystem.message(),
        "Failed to filter devices by input subsystem."
    );
    assert_eq!(Errors::UdevDeviceScan.message(), "Failed to scan for devices.");
    assert_eq!(Errors::UdevError.message(), "Failed to udev.");
    assert_eq!(Errors::UdevMonitor.message(), "Failed to monitor for new devices.");
    assert_eq!(Errors::EvdevOpen.message(), "Failed to open device.");
    assert_eq!(
        Errors::EvdevFetch("Gamepad".to_string()).message(),
        "Failed to fetch device events: 'Gamepad'."
    );
    assert_eq!(Errors::NotController.message(), "This device is not a controller.");
    assert_eq!(
        Errors::NoDevicePath.message(),
        "This device does not have a path? Wtf how?"
    );
    assert_eq!(
        Errors::InvalidParams.message(),
        "Invalid parameters. Please provide a command to execute once the home button is pressed."
    );
}
