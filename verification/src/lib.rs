//! Watches game-controller input devices for a press of the controller's
//! "home" button and decides, for every device and event the host reports,
//! what the surrounding process should do: which devices are controllers,
//! which raw events count as the trigger, and when a listener must stop.
pub mod config;
pub mod device;
pub mod errors;
pub mod events;
pub mod hotplug;
pub mod listener;
