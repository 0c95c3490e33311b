//! The packing surface the driver writes through.

pub use crate::pack::pipeline::pack_into_bytes;
pub use crate::pack::temporal::{NoTemporalDither, TemporalBayerDither, TemporalDither};
pub use crate::pack::{pack_rgb48_active, PackError};
