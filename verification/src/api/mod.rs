//! Typestate driver API.
//!
//! - setup through validated [`PreparedSetup`] values and one single-shot
//!   call to `Driver::configure_prepared`;
//! - runtime channel writes through `driver.channel(channel)?.write_rgb48(..)`;
//! - submission through `Driver::commit` and `Driver::service`;
//! - backend ingress through `Driver::on_backend_signal` (backend-private
//!   signals) and `Driver::on_backend_event` (semantic events).
//!
//! Lifecycle order is enforced by typestate (`Configuring` then `Ready`);
//! handles are driver-owned and cross-driver use is rejected.

pub mod backend;
pub mod channel;
pub mod driver;
pub mod error_map;
pub mod errors;
pub mod setup;

pub use crate::model::{BackendChannelId, ChannelId, PixelLayout, Rgb48};
pub use channel::{Channel, ConfiguredChannels};
pub use driver::{ChannelWriter, Configuring, Driver, Ready};
pub use errors::{DriverInitError, RegisterError, RuntimeError};
pub use setup::{PreparedBinding, PreparedSetup, SetupBuildError};

