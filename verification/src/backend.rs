//! Public backend extension boundary for the driver.
//!
//! Backend implementations depend on this module as the single contract
//! surface between the driver and a transport:
//! - `configure_channels` registers the whole channel set as one unit;
//! - `acquire_write_target` lends one backend-owned wire buffer for a channel;
//! - `publish` on the lease moves that write into backend-pending state;
//! - `submit_channels` asks the transport to send a committed channel mask.
//!
//! Busy results never lose work: `AcquireWrite::Busy` means no writable
//! target is available right now, `StartTransfer::Busy` means no batch was
//! accepted and the caller retries later with the same pending mask.
//!
//! `BackendEvent::TransferComplete` is only meaningful while a transfer that
//! the backend accepted with `StartTransfer::Started` is in flight; reporting
//! it at any other time is a contract violation that the driver latches and
//! reports on its next runtime call.

use crate::model::{BackendChannelId, PixelLayout};
use vstd::prelude::*;

verus! {

#[derive(Copy, Clone, Debug, PartialEq, Eq, Structural)]
pub enum BackendError {
    /// Submission shape or identity is invalid for this backend instance.
    InvalidBinding,
    /// Transport reported an unexpected fatal condition.
    TransportFault { raw_code: u8 },
}

#[derive(Copy, Clone, Debug, PartialEq, Eq, Structural)]
pub enum BackendSignal {
    /// Backend-private token; the driver only forwards it.
    Opaque(u8),
}

#[derive(Copy, Clone, Debug, PartialEq, Eq, Structural)]
pub enum BackendEvent {
    /// One previously accepted submission batch has completed.
    TransferComplete,
}

#[derive(Copy, Clone, Debug, PartialEq, Eq, Structural)]
pub struct BackendChannelSpec {
    pub channel: BackendChannelId,
    pub pixels: u16,
    pub layout: PixelLayout,
}

/// A live, backend-owned write target for one channel.
///
/// Dropping a lease that was not published must abort the write so that the
/// channel can be acquired again.
pub trait BackendWriteLease {
    /// The backend channel this lease was acquired for.
    fn channel(&self) -> BackendChannelId;

    /// The exact writable wire buffer of this write.
    fn bytes_mut(&mut self) -> &mut [u8];

    /// Moves the write into backend-pending state.
    fn publish(&mut self) -> Result<(), BackendError>;
}

#[derive(Copy, Clone, Debug, PartialEq, Eq)]
pub enum AcquireWrite<G> {
    Ready(G),
    Busy,
}

#[derive(Copy, Clone, Debug, PartialEq, Eq, Structural)]
pub enum StartTransfer {
    Started,
    Busy,
}

#[derive(Copy, Clone, Debug, PartialEq, Eq, Structural)]
pub struct BackendCapabilities {
    /// Maximum number of backend channels the driver may register.
    pub max_channels: usize,
    /// Per-channel wire byte limit checked before the backend is configured.
    pub max_bytes_per_channel: Option<u32>,
}

/// Transport side of the driver, implemented by backend crates.
///
/// The driver checks everything it relies on (lease channel, lease length,
/// event timing) itself, so no method here carries a contract.
pub trait LedBackend {
    type WriteLease<'a>: BackendWriteLease + 'a where Self: 'a;

    /// Backend-local initialisation before registration begins.
    fn init(&mut self) -> Result<(), BackendError>;

    /// Structural limits that shape what the driver may register.
    fn capabilities(&self) -> BackendCapabilities;

    /// Applies the full channel configuration as one unit. A backend that
    /// does not override it accepts every configuration.
    fn configure_channels(&mut self, specs: &[BackendChannelSpec]) -> (r: Result<(), BackendError>)
        default_ensures
            r == Ok::<(), BackendError>(()),
    {
        Ok(())
    }

    /// Acquires a writable backend-owned target for the given channel. A
    /// backend that does not override it never has a target ready.
    fn acquire_write_target(&mut self, channel: BackendChannelId) -> (r: Result<
        AcquireWrite<Self::WriteLease<'_>>,
        BackendError,
    >)
        default_ensures
            r matches Ok(AcquireWrite::Busy),
    {
        Ok(AcquireWrite::Busy)
    }

    /// Submits a committed channel mask to the transport.
    fn submit_channels(&mut self, mask_bits: u32) -> Result<StartTransfer, BackendError>;

    /// Backend-private low-level ingress hook.
    fn on_signal(&mut self, signal: BackendSignal);

    /// Completion and event hook for backend-owned runtime state.
    fn on_event(&mut self, event: BackendEvent) {
    }
}

} // verus!
