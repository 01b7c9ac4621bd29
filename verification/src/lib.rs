//! Gear-selection and actuator-coordination core of a vehicle drive-by-wire
//! retrofit.
//!
//! The library models and verifies the control core: the button protocol that
//! arbitrates four physical gear-selector buttons against a shared cooperative
//! lock, the actuator controller that serializes gear changes, the persistent
//! configuration store with erase-before-write semantics, the watchdog-based
//! fail-stop mechanism, and the valet-mode toggle gesture.
//!
//! Hardware access (pins, flash, UART, timers) lives outside the library; the
//! functions here take plain values (debounced press edges, biometric verdicts,
//! voltage readings, block contents) and return the next state together with
//! the actions the surrounding tasks must perform.

pub mod buttons;
pub mod can_bus;
pub mod config;
pub mod gear_core;
pub mod laws;
pub mod ups;
pub mod watchdog;

pub use buttons::Button;
pub use buttons::LedStatus;
pub use can_bus::CANMessage;
pub use config::DbwConfig;
pub use watchdog::StopWatchdog;
