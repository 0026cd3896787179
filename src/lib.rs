//! Hardware-mode controller for ROG laptops: performance profiles, the fan
//! and CPU power settings that each profile stands for, the battery charge
//! limit, and the wireless-radio toggle.
//!
//! The library decides; the caller performs. Each operation of [`RogCore`]
//! hands out one [`Action`] at a time and is resumed with its outcome, so
//! that every decision is verified while the file writes, the CPU
//! performance-state calls and the process spawns stay with the caller.
pub mod config;
pub mod control;
pub mod error;
pub mod profile;
pub mod radio;

pub use config::{Config, ModePerformance, PerfParams};
pub use control::{Action, ControlPath, FanRequest, Payload, Phase, RogCore};
pub use error::RogError;
pub use profile::FanLevel;
pub use radio::RadioCommand;
