//! The closed set of failures the system distinguishes, one variant per
//! failure site, and the diagnostic line each one carries.
use vstd::prelude::*;
use vstd::string::StringExecFns;

verus! {

/// Every failure the system can report. `EvdevFetch` carries the display
/// name of the device whose event fetch failed.
#[derive(Debug)]
pub enum Errors {
    UdevSubsystem,
    UdevDeviceScan,
    UdevError,
    UdevMonitor,
    EvdevOpen,
    EvdevFetch(String),
    NotController,
    NoDevicePath,
    InvalidParams,
}

/// The diagnostic line each error prints, as a sequence of characters.
pub open spec fn message_spec(e: Errors) -> Seq<char> {
    match e {
        Errors::UdevSubsystem => "Failed to filter devices by input subsystem."@,
        Errors::UdevDeviceScan => "Failed to scan for devices."@,
        Errors::UdevError => "Failed to udev."@,
        Errors::UdevMonitor => "Failed to monitor for new devices."@,
        Errors::EvdevOpen => "Failed to open device."@,
        Errors::EvdevFetch(name) => "Failed to fetch device events: '"@ + name@ + "'."@,
        Errors::NotController => "This device is not a controller."@,
        Errors::NoDevicePath => "This device does not have a path? Wtf how?"@,
        Errors::InvalidParams => "Invalid parameters. Please provide a command to execute once the home button is pressed."@,
    }
}

impl Errors {
    /// The human-readable description printed when this error is reported.
    pub fn message(&self) -> (r: String)
        ensures
            r@ == message_spec(*self),
    {
        match self {
            Errors::UdevSubsystem => "Failed to filter devices by input subsystem.".to_owned(),
            Errors::UdevDeviceScan => "Failed to scan for devices.".to_owned(),
            Errors::UdevError => "Failed to udev.".to_owned(),
            Errors::UdevMonitor => "Failed to monitor for new devices.".to_owned(),
            Errors::EvdevOpen => "Failed to open device.".to_owned(),
            Errors::EvdevFetch(name) => {
                let mut line = "Failed to fetch device events: '".to_owned();
                line.append(name.as_str());
                line.append("'.");
                line
            },
            Errors::NotController => "This device is not a controller.".to_owned(),
            Errors::NoDevicePath => "This device does not have a path? Wtf how?".to_owned(),
            Errors::InvalidParams => "Invalid parameters. Please provide a command to execute once the home button is pressed.".to_owned(),
        }
    }
}

} // verus!
