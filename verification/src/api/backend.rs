//! The backend contract surface, as seen from the typestate API.

pub use crate::backend::{
    AcquireWrite, BackendCapabilities, BackendChannelSpec, BackendError, BackendEvent,
    BackendSignal, BackendWriteLease, LedBackend, StartTransfer,
};
