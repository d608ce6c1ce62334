//! The components that the monitoring process is wired from.
//!
//! Two wirings exist. The gated wiring routes every event through
//! [`change_router::ChangeRouterActor`], which orders the VPN peer update
//! strictly after the DNS success for the same event. The structs in this
//! module belong to the fan-out wiring: each updater subscribes to the
//! event stream independently and decides for itself, trading the
//! ordering guarantee for decoupling. The gated wiring is the default;
//! the fan-out one is the documented lower-guarantee alternative.

use vstd::prelude::*;
use crate::address_change::{AddressChange, ChangeModel, IpV6Address};
use crate::relevance::{is_relevant, is_relevant_model};

pub mod change_router;
pub mod gandi_updater;
pub mod wireguard_updater;

verus! {

/// The monitor pump of the fan-out wiring: reads lines from the monitor
/// process and broadcasts every parsed event to all subscribed sinks.
/// Reading and broadcasting are the caller's business; the per-line
/// conversion is [`crate::parse_monitor::parse_line`].
pub struct IpMonitor;

/// The DNS-updating subscriber of the fan-out wiring.
pub struct GandiUpdater;

impl GandiUpdater {
    /// The subscriber's decision for one received event: the address to
    /// publish, if the event calls for a DNS update at all.
    pub fn wants_update(change: &AddressChange) -> (r: Option<IpV6Address>)
        ensures
            r is Some <==> is_relevant_model(change@),
            match r {
                Some(a) => change@ matches ChangeModel::AdditionV6(m) && a@ == m,
                None => true,
            },
    {
        if is_relevant(change) {
            match change {
                AddressChange::AdditionV6(v6) => Some(
                    IpV6Address { address: v6.address.clone(), scope: v6.scope },
                ),
                _ => {
                    proof {
                        assert(false);
                    }
                    None
                },
            }
        } else {
            None
        }
    }
}

/// The peer-updating subscriber of the fan-out wiring. Unlike the gated
/// router it acts on relevance alone, without awaiting the DNS outcome.
pub struct WireGuardUpdater;

impl WireGuardUpdater {
    /// The subscriber's decision for one received event: whether it calls
    /// for re-pointing the VPN peer.
    pub fn wants_update(change: &AddressChange) -> (r: bool)
        ensures
            r == is_relevant_model(change@),
    {
        is_relevant(change)
    }
}

} // verus!
