//! Validated channel setups consumed by driver configuration.

use crate::bounded::{binding_list_as_slice, binding_list_new, binding_list_push, held_bindings};
use crate::model::{BackendChannelId, ChannelId, PixelLayout};
use crate::DRIVER_MAX_CHANNELS;
use vstd::prelude::*;

verus! {

/// One structural mapping from a logical driver channel to one backend-owned
/// wire target.
#[derive(Copy, Clone, Debug, PartialEq, Eq, Structural)]
pub struct PreparedBinding {
    pub logical_channel: ChannelId,
    pub backend_channel: BackendChannelId,
    pub pixels: u16,
    pub layout: PixelLayout,
}

impl PreparedBinding {
    pub fn new(
        logical_channel: ChannelId,
        backend_channel: BackendChannelId,
        pixels: u16,
        layout: PixelLayout,
    ) -> (r: Self)
        ensures
            r == (PreparedBinding { logical_channel, backend_channel, pixels, layout }),
    {
        PreparedBinding { logical_channel, backend_channel, pixels, layout }
    }
}

#[derive(Copy, Clone, Debug, PartialEq, Eq, Structural)]
pub enum SetupBuildError {
    /// More bindings were provided than the driver can store.
    CapacityExceeded,
    /// A logical channel index exceeded the driver's channel capacity.
    InvalidLogicalChannel,
    /// Two bindings targeted the same logical channel.
    DuplicateLogicalChannel,
    /// Two bindings targeted the same backend-owned channel.
    DuplicateBackendChannel,
    /// A channel declared zero pixels.
    InvalidPixelCount,
    /// `pixels * 3` overflowed while deriving wire bytes.
    OverflowingWireSize,
}

/// Problem with binding `j` given the bindings before it.
pub open spec fn spec_binding_error(bs: Seq<PreparedBinding>, j: int) -> Option<SetupBuildError> {
    let b = bs[j];
    if b.logical_channel.0 >= DRIVER_MAX_CHANNELS {
        Some(SetupBuildError::InvalidLogicalChannel)
    } else if exists|k: int| 0 <= k < j && #[trigger] bs[k].logical_channel == b.logical_channel {
        Some(SetupBuildError::DuplicateLogicalChannel)
    } else if exists|k: int| 0 <= k < j && #[trigger] bs[k].backend_channel == b.backend_channel {
        Some(SetupBuildError::DuplicateBackendChannel)
    } else if b.pixels == 0 {
        Some(SetupBuildError::InvalidPixelCount)
    } else {
        None
    }
}

/// First problem among the first `n` bindings, in list order.
pub open spec fn spec_first_binding_error(bs: Seq<PreparedBinding>, n: int) -> Option<SetupBuildError>
    decreases n,
{
    if n <= 0 {
        None
    } else {
        match spec_first_binding_error(bs, n - 1) {
            Some(e) => Some(e),
            None => spec_binding_error(bs, n - 1),
        }
    }
}

/// Once a problem is found among the first `k` bindings, it stays the first
/// problem of every longer prefix.
pub proof fn lemma_first_binding_error_stable(bs: Seq<PreparedBinding>, k: int, m: int)
    requires
        0 <= k <= m,
        spec_first_binding_error(bs, k) is Some,
    ensures
        spec_first_binding_error(bs, m) == spec_first_binding_error(bs, k),
    decreases m - k,
{
    if m > k {
        lemma_first_binding_error_stable(bs, k, m - 1);
    }
}

/// A problem at binding `j`, after none before it, is the first problem of
/// the whole list.
proof fn lemma_error_at(bs: Seq<PreparedBinding>, j: int, e: SetupBuildError)
    requires
        0 <= j < bs.len(),
        spec_first_binding_error(bs, j) is None,
        spec_binding_error(bs, j) == Some(e),
    ensures
        spec_first_binding_error(bs, bs.len() as int) == Some(e),
{
    lemma_first_binding_error_stable(bs, j + 1, bs.len() as int);
}

/// A binding list a driver can be configured with: at most
/// `DRIVER_MAX_CHANNELS` bindings, each to a distinct logical channel below
/// `DRIVER_MAX_CHANNELS` and a distinct backend channel, none of zero pixels.
pub open spec fn spec_valid_bindings(bs: Seq<PreparedBinding>) -> bool {
    bs.len() <= DRIVER_MAX_CHANNELS && spec_first_binding_error(bs, bs.len() as int) is None
}

/// Outcome of validating a binding list.
pub open spec fn spec_setup_result(bs: Seq<PreparedBinding>) -> Result<Seq<PreparedBinding>, SetupBuildError> {
    if bs.len() > DRIVER_MAX_CHANNELS {
        Err(SetupBuildError::CapacityExceeded)
    } else {
        match spec_first_binding_error(bs, bs.len() as int) {
            Some(e) => Err(e),
            None => Ok(bs),
        }
    }
}

/// Bindings collected before validation.
struct SetupDraft {
    bindings: heapless::Vec<PreparedBinding, DRIVER_MAX_CHANNELS>,
}

impl SetupDraft {
    fn new() -> (r: Self)
        ensures
            held_bindings(r.bindings) == Seq::<PreparedBinding>::empty(),
    {
        SetupDraft { bindings: binding_list_new() }
    }

    fn push_binding(&mut self, binding: PreparedBinding) -> (r: Result<(), SetupBuildError>)
        ensures
            held_bindings(old(self).bindings).len() < DRIVER_MAX_CHANNELS ==> r is Ok
                && held_bindings(final(self).bindings) == held_bindings(old(self).bindings).push(binding),
            held_bindings(old(self).bindings).len() >= DRIVER_MAX_CHANNELS ==> r == Err::<(), _>(
                SetupBuildError::CapacityExceeded,
            ) && held_bindings(final(self).bindings) == held_bindings(old(self).bindings),
    {
        match binding_list_push(&mut self.bindings, binding) {
            Ok(()) => Ok(()),
            Err(_) => Err(SetupBuildError::CapacityExceeded),
        }
    }

    fn validate(self) -> (r: Result<PreparedSetup, SetupBuildError>)
        requires
            held_bindings(self.bindings).len() <= DRIVER_MAX_CHANNELS,
        ensures
            match spec_first_binding_error(held_bindings(self.bindings), held_bindings(self.bindings).len() as int) {
                Some(e) => r == Err::<PreparedSetup, _>(e),
                None => r matches Ok(s) && s@ == held_bindings(self.bindings),
            },
    {
        let ghost bs = held_bindings(self.bindings);
        let slice = binding_list_as_slice(&self.bindings);
        let mut seen_logical = [false; 8];
        let mut seen_backend = [false; 256];
        let n = slice.len();
        let mut idx: usize = 0;
        while idx < n
            invariant
                slice@ == bs,
                bs == held_bindings(self.bindings),
                n == bs.len(),
                n <= DRIVER_MAX_CHANNELS,
                idx <= n,
                seen_logical@.len() == 8,
                seen_backend@.len() == 256,
                forall|c: int|
                    0 <= c < 8 ==> (#[trigger] seen_logical@[c] <==> exists|k: int|
                        0 <= k < idx && bs[k].logical_channel.0 == c),
                forall|c: int|
                    0 <= c < 256 ==> (#[trigger] seen_backend@[c] <==> exists|k: int|
                        0 <= k < idx && bs[k].backend_channel.0 == c),
                forall|k: int| 0 <= k < idx ==> #[trigger] bs[k].logical_channel.0 < 8,
                spec_first_binding_error(bs, idx as int) is None,
            decreases n - idx,
        {
            let binding = slice[idx];
            let logical_index = binding.logical_channel.as_index();
            if logical_index >= DRIVER_MAX_CHANNELS {
                proof {
                    lemma_error_at(bs, idx as int, SetupBuildError::InvalidLogicalChannel);
                }
                return Err(SetupBuildError::InvalidLogicalChannel);
            }
            if seen_logical[logical_index] {
                proof {
                    let k = choose|k: int| 0 <= k < idx && bs[k].logical_channel.0 == logical_index;
                    assert(bs[k].logical_channel == binding.logical_channel);
                    lemma_error_at(bs, idx as int, SetupBuildError::DuplicateLogicalChannel);
                }
                return Err(SetupBuildError::DuplicateLogicalChannel);
            }
            seen_logical[logical_index] = true;
            let backend_index = binding.backend_channel.as_index();
            if seen_backend[backend_index] {
                proof {
                    assert(!exists|k: int| 0 <= k < idx && #[trigger] bs[k].logical_channel == binding.logical_channel) by {
                        if exists|k: int| 0 <= k < idx && #[trigger] bs[k].logical_channel == binding.logical_channel {
                            let k = choose|k: int| 0 <= k < idx && #[trigger] bs[k].logical_channel == binding.logical_channel;
                            assert(bs[k].logical_channel.0 == logical_index);
                        }
                    }
                    let k = choose|k: int| 0 <= k < idx && bs[k].backend_channel.0 == backend_index;
                    assert(bs[k].backend_channel == binding.backend_channel);
                    lemma_error_at(bs, idx as int, SetupBuildError::DuplicateBackendChannel);
                }
                return Err(SetupBuildError::DuplicateBackendChannel);
            }
            seen_backend[backend_index] = true;
            proof {
                assert(!exists|k: int| 0 <= k < idx && #[trigger] bs[k].logical_channel == binding.logical_channel) by {
                    if exists|k: int| 0 <= k < idx && #[trigger] bs[k].logical_channel == binding.logical_channel {
                        let k = choose|k: int| 0 <= k < idx && #[trigger] bs[k].logical_channel == binding.logical_channel;
                        assert(bs[k].logical_channel.0 == logical_index);
                    }
                }
                assert(!exists|k: int| 0 <= k < idx && #[trigger] bs[k].backend_channel == binding.backend_channel) by {
                    if exists|k: int| 0 <= k < idx && #[trigger] bs[k].backend_channel == binding.backend_channel {
                        let k = choose|k: int| 0 <= k < idx && #[trigger] bs[k].backend_channel == binding.backend_channel;
                        assert(bs[k].backend_channel.0 == backend_index);
                    }
                }
            }
            if binding.pixels == 0 {
                proof {
                    lemma_error_at(bs, idx as int, SetupBuildError::InvalidPixelCount);
                }
                return Err(SetupBuildError::InvalidPixelCount);
            }
            let _wire_bytes = match (binding.pixels as u32).checked_mul(3) {
                Some(w) => w,
                None => {
                    return Err(SetupBuildError::OverflowingWireSize);
                },
            };
            idx = idx + 1;
        }
        Ok(PreparedSetup { bindings: self.bindings })
    }
}

/// Immutable, validated setup capability consumed by driver configuration.
///
/// Only `from_bindings` produces one, so every value holds a valid binding
/// list.
pub struct PreparedSetup {
    bindings: heapless::Vec<PreparedBinding, DRIVER_MAX_CHANNELS>,
}

impl View for PreparedSetup {
    type V = Seq<PreparedBinding>;

    closed spec fn view(&self) -> Seq<PreparedBinding> {
        held_bindings(self.bindings)
    }
}

impl PreparedSetup {
    /// Every prepared setup holds a valid binding list.
    #[verifier::type_invariant]
    pub open spec fn inv(self) -> bool {
        spec_valid_bindings(self@)
    }

    /// Validates a binding list and produces an immutable prepared setup.
    pub fn from_bindings(bindings: &[PreparedBinding]) -> (r: Result<Self, SetupBuildError>)
        ensures
            match spec_setup_result(bindings@) {
                Ok(bs) => r matches Ok(s) && s@ == bs,
                Err(e) => r matches Err(re) && re == e,
            },
    {
        let mut draft = SetupDraft::new();
        let n = bindings.len();
        let mut idx: usize = 0;
        while idx < n
            invariant
                n == bindings@.len(),
                idx <= n,
                idx <= DRIVER_MAX_CHANNELS,
                held_bindings(draft.bindings) == bindings@.subrange(0, idx as int),
            decreases n - idx,
        {
            if idx >= DRIVER_MAX_CHANNELS {
                let r = draft.push_binding(bindings[idx]);
                assert(r is Err);
                return Err(SetupBuildError::CapacityExceeded);
            }
            match draft.push_binding(bindings[idx]) {
                Ok(()) => {},
                Err(e) => {
                    return Err(e);
                },
            }
            assert(bindings@.subrange(0, idx + 1) == bindings@.subrange(0, idx as int).push(bindings@[idx as int]));
            idx = idx + 1;
        }
        assert(bindings@.subrange(0, n as int) == bindings@);
        draft.validate()
    }

    /// The validated binding list, in the order it was given.
    pub fn bindings(&self) -> (r: &[PreparedBinding])
        ensures
            r@ == self@,
    {
        binding_list_as_slice(&self.bindings)
    }

    pub fn len(&self) -> (r: usize)
        ensures
            r == self@.len(),
    {
        binding_list_as_slice(&self.bindings).len()
    }

    pub fn is_empty(&self) -> (r: bool)
        ensures
            r == (self@.len() == 0),
    {
        binding_list_as_slice(&self.bindings).len() == 0
    }

    /// A copy of the validated binding list.
    pub fn iter(&self) -> (r: Vec<PreparedBinding>)
        ensures
            r@ == self@,
    {
        let s = binding_list_as_slice(&self.bindings);
        let mut out: Vec<PreparedBinding> = Vec::new();
        let mut idx: usize = 0;
        while idx < s.len()
            invariant
                idx <= s@.len(),
                out@ == s@.subrange(0, idx as int),
            decreases s@.len() - idx,
        {
            out.push(s[idx]);
            assert(s@.subrange(0, idx + 1) == s@.subrange(0, idx as int).push(s@[idx as int]));
            idx = idx + 1;
        }
        assert(s@.subrange(0, s@.len() as int) == s@);
        out
    }
}

} // verus!

verus! {

/// With no problem among the first `n` bindings, those bindings name
/// distinct logical and backend channels, every logical channel is below
/// `DRIVER_MAX_CHANNELS` and every binding has pixels.
proof fn lemma_prefix_without_error(bs: Seq<PreparedBinding>, n: int)
    requires
        0 <= n <= bs.len(),
        spec_first_binding_error(bs, n) is None,
    ensures
        forall|i: int|
            0 <= i < n ==> (#[trigger] bs[i]).logical_channel.0 < DRIVER_MAX_CHANNELS
                && bs[i].pixels > 0,
        forall|i: int, j: int|
            0 <= i < j < n ==> (#[trigger] bs[i]).logical_channel != (#[trigger] bs[j]).logical_channel
                && bs[i].backend_channel != bs[j].backend_channel,
    decreases n,
{
    if n > 0 {
        lemma_prefix_without_error(bs, n - 1);
        assert forall|i: int| 0 <= i < n - 1 implies (#[trigger] bs[i]).logical_channel != bs[n
            - 1].logical_channel && bs[i].backend_channel != bs[n - 1].backend_channel by {
            if bs[i].logical_channel == bs[n - 1].logical_channel {
                assert(exists|k: int| 0 <= k < n - 1 && #[trigger] bs[k].logical_channel == bs[n
                    - 1].logical_channel);
            }
            if bs[i].backend_channel == bs[n - 1].backend_channel {
                assert(exists|k: int| 0 <= k < n - 1 && #[trigger] bs[k].backend_channel == bs[n
                    - 1].backend_channel);
            }
        }
    }
}

/// Every validated binding list (and so every prepared setup) holds at most
/// `DRIVER_MAX_CHANNELS` bindings, to distinct logical channels below
/// `DRIVER_MAX_CHANNELS` and distinct backend channels, none of zero pixels.
pub proof fn law_valid_bindings_are_distinct(bs: Seq<PreparedBinding>)
    requires
        spec_valid_bindings(bs),
    ensures
        bs.len() <= DRIVER_MAX_CHANNELS,
        forall|i: int|
            0 <= i < bs.len() ==> (#[trigger] bs[i]).logical_channel.0 < DRIVER_MAX_CHANNELS
                && bs[i].pixels > 0,
        forall|i: int, j: int|
            0 <= i < j < bs.len() ==> (#[trigger] bs[i]).logical_channel != (
            #[trigger] bs[j]).logical_channel && bs[i].backend_channel != bs[j].backend_channel,
{
    lemma_prefix_without_error(bs, bs.len() as int);
}

} // verus!

verus! {

/// Bindings with logical channels below `DRIVER_MAX_CHANNELS`, pairwise
/// distinct logical and backend channels, and pixels, have no problem.
proof fn lemma_prefix_is_valid(bs: Seq<PreparedBinding>, n: int)
    requires
        0 <= n <= bs.len(),
        forall|i: int| 0 <= i < n ==> (#[trigger] bs[i]).logical_channel.0 < DRIVER_MAX_CHANNELS,
        forall|i: int| 0 <= i < n ==> (#[trigger] bs[i]).pixels > 0,
        forall|i: int, j: int|
            0 <= i < j < n ==> (#[trigger] bs[i]).logical_channel != (#[trigger] bs[j]).logical_channel,
        forall|i: int, j: int|
            0 <= i < j < n ==> (#[trigger] bs[i]).backend_channel != (#[trigger] bs[j]).backend_channel,
    ensures
        spec_first_binding_error(bs, n) is None,
    decreases n,
{
    if n > 0 {
        lemma_prefix_is_valid(bs, n - 1);
        let b = bs[n - 1];
        assert(b.logical_channel.0 < DRIVER_MAX_CHANNELS);
        assert(b.pixels > 0);
        assert(!exists|k: int| 0 <= k < n - 1 && #[trigger] bs[k].logical_channel == b.logical_channel) by {
            if exists|k: int| 0 <= k < n - 1 && #[trigger] bs[k].logical_channel == b.logical_channel {
                let k = choose|k: int| 0 <= k < n - 1 && #[trigger] bs[k].logical_channel == b.logical_channel;
                assert(bs[k].logical_channel != bs[n - 1].logical_channel);
            }
        }
        assert(!exists|k: int| 0 <= k < n - 1 && #[trigger] bs[k].backend_channel == b.backend_channel) by {
            if exists|k: int| 0 <= k < n - 1 && #[trigger] bs[k].backend_channel == b.backend_channel {
                let k = choose|k: int| 0 <= k < n - 1 && #[trigger] bs[k].backend_channel == b.backend_channel;
                assert(bs[k].backend_channel != bs[n - 1].backend_channel);
            }
        }
    }
}

/// Validation accepts exactly the well-formed binding lists: a list of at
/// most `DRIVER_MAX_CHANNELS` bindings, to distinct logical channels below
/// `DRIVER_MAX_CHANNELS` and distinct backend channels, each with pixels,
/// validates to itself (and `from_bindings` returns it).
pub proof fn law_well_formed_bindings_are_accepted(bs: Seq<PreparedBinding>)
    requires
        bs.len() <= DRIVER_MAX_CHANNELS,
        forall|i: int| 0 <= i < bs.len() ==> (#[trigger] bs[i]).logical_channel.0 < DRIVER_MAX_CHANNELS,
        forall|i: int| 0 <= i < bs.len() ==> (#[trigger] bs[i]).pixels > 0,
        forall|i: int, j: int|
            0 <= i < j < bs.len() ==> (#[trigger] bs[i]).logical_channel != (#[trigger] bs[j]).logical_channel,
        forall|i: int, j: int|
            0 <= i < j < bs.len() ==> (#[trigger] bs[i]).backend_channel != (#[trigger] bs[j]).backend_channel,
    ensures
        spec_valid_bindings(bs),
        spec_setup_result(bs) == Ok::<Seq<PreparedBinding>, SetupBuildError>(bs),
{
    lemma_prefix_is_valid(bs, bs.len() as int);
}

} // verus!
