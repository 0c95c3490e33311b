//! Integration-facing ingress surface.
//!
//! Kept apart from the application-facing write/commit/service surface: this
//! is what runtime or interrupt glue uses to forward backend signals and
//! events into a driver.

use crate::backend::{BackendEvent, BackendSignal};
use vstd::prelude::*;

verus! {

pub trait DriverHostIngress {
    fn on_backend_signal(&mut self, signal: BackendSignal);

    fn on_backend_event(&mut self, event: BackendEvent);
}

} // verus!
