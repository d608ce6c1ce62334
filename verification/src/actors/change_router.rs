//! The event router: serializes relevant events and enforces the gating
//! invariant between the two update actions.
//!
//! One event is in flight at a time. [`ChangeRouterActor::handle`] decides
//! whether an incoming event starts a DNS update; the caller performs the
//! update and reports its outcome to [`ChangeRouterActor::dns_completed`],
//! which issues the VPN peer update exactly when the DNS update succeeded.
//! A VPN peer update can therefore never precede the DNS success for its
//! event.

use vstd::prelude::*;
use crate::address_change::{AddressChange, ChangeModel, IpV6Address};
use crate::messages::{IpChange, UpdateGandi, UpdateWireguard};
use crate::relevance::{is_relevant, is_relevant_model};

verus! {

/// How often each downstream action has been invoked, as counted by the
/// router model.
pub struct RouterModel {
    pub dns_attempts: nat,
    pub dns_successes: nat,
    pub vpn_invocations: nat,
}

/// Invocation counters of a running router.
#[derive(Clone, Copy, Debug, PartialEq, Eq, Structural)]
pub struct RouterStats {
    pub dns_attempts: u64,
    pub dns_successes: u64,
    pub vpn_invocations: u64,
}

impl View for RouterStats {
    type V = RouterModel;

    open spec fn view(&self) -> RouterModel {
        RouterModel {
            dns_attempts: self.dns_attempts as nat,
            dns_successes: self.dns_successes as nat,
            vpn_invocations: self.vpn_invocations as nat,
        }
    }
}

/// What receiving one event does to the counters: a relevant event starts
/// a DNS update, anything else is dropped without side effects.
pub open spec fn route_effect(m: RouterModel, ev: ChangeModel) -> RouterModel {
    if is_relevant_model(ev) {
        RouterModel { dns_attempts: m.dns_attempts + 1, ..m }
    } else {
        m
    }
}

/// What the reported DNS outcome for the event in flight does to the
/// counters: only success invokes the VPN peer update.
pub open spec fn complete_effect(m: RouterModel, ok: bool) -> RouterModel {
    if ok {
        RouterModel {
            dns_successes: m.dns_successes + 1,
            vpn_invocations: m.vpn_invocations + 1,
            ..m
        }
    } else {
        m
    }
}

/// The combined effect of processing one event whose DNS update, if one
/// is started at all, has outcome `ok`.
pub open spec fn router_step(m: RouterModel, ev: ChangeModel, ok: bool) -> RouterModel {
    if is_relevant_model(ev) {
        RouterModel {
            dns_attempts: m.dns_attempts + 1,
            dns_successes: m.dns_successes + if ok {
                1nat
            } else {
                0nat
            },
            vpn_invocations: m.vpn_invocations + if ok {
                1nat
            } else {
                0nat
            },
        }
    } else {
        m
    }
}

/// Law: one step of the router is exactly a routing decision followed,
/// for a relevant event, by the completion of its DNS update.
pub proof fn lemma_step_is_route_then_complete(m: RouterModel, ev: ChangeModel, ok: bool)
    ensures
        router_step(m, ev, ok) == (if is_relevant_model(ev) {
            complete_effect(route_effect(m, ev), ok)
        } else {
            route_effect(m, ev)
        }),
{
}

/// The counters after a whole sequence of events, where `oks[i]` is the
/// outcome the DNS update would report for event `i` if one is started.
pub open spec fn router_run(m: RouterModel, events: Seq<ChangeModel>, oks: Seq<bool>) -> RouterModel
    decreases events.len(),
{
    if events.len() == 0 {
        m
    } else {
        router_step(router_run(m, events.drop_last(), oks.drop_last()), events.last(), oks.last())
    }
}

/// How many events of the sequence are relevant.
pub open spec fn count_relevant(events: Seq<ChangeModel>) -> nat
    decreases events.len(),
{
    if events.len() == 0 {
        0
    } else {
        count_relevant(events.drop_last()) + if is_relevant_model(events.last()) {
            1nat
        } else {
            0nat
        }
    }
}

/// Law: when every DNS update fails, the VPN peer updater is invoked zero
/// times across any sequence of events.
pub proof fn lemma_no_dns_success_no_vpn(m: RouterModel, events: Seq<ChangeModel>, oks: Seq<bool>)
    requires
        oks.len() == events.len(),
        forall|i: int| 0 <= i < oks.len() ==> !oks[i],
    ensures
        router_run(m, events, oks).vpn_invocations == m.vpn_invocations,
        router_run(m, events, oks).dns_successes == m.dns_successes,
    decreases events.len(),
{
    if events.len() > 0 {
        lemma_no_dns_success_no_vpn(m, events.drop_last(), oks.drop_last());
    }
}

/// Law: when every DNS update succeeds, the VPN peer updater is invoked
/// exactly once per relevant event, each time after the DNS update for
/// that event completed.
pub proof fn lemma_vpn_once_per_relevant(m: RouterModel, events: Seq<ChangeModel>, oks: Seq<bool>)
    requires
        oks.len() == events.len(),
        forall|i: int| 0 <= i < oks.len() ==> oks[i],
    ensures
        router_run(m, events, oks).vpn_invocations == m.vpn_invocations + count_relevant(events),
        router_run(m, events, oks).dns_successes == m.dns_successes + count_relevant(events),
        router_run(m, events, oks).dns_attempts == m.dns_attempts + count_relevant(events),
    decreases events.len(),
{
    if events.len() > 0 {
        lemma_vpn_once_per_relevant(m, events.drop_last(), oks.drop_last());
        assert(oks.last());
    }
}

/// The gating invariant: the VPN peer updater has never been invoked more
/// often than the DNS updater has succeeded, nor succeeded more often
/// than attempted.
pub open spec fn gated(m: RouterModel) -> bool {
    m.vpn_invocations <= m.dns_successes <= m.dns_attempts
}

/// Law: every router step preserves the gating invariant.
pub proof fn lemma_step_preserves_gating(m: RouterModel, ev: ChangeModel, ok: bool)
    requires
        gated(m),
    ensures
        gated(router_step(m, ev, ok)),
{
}

/// The router. Events are handed to it one at a time, in the order the
/// monitor emitted them; while a DNS update is pending it processes
/// nothing else, so no two update sequences interleave.
pub struct ChangeRouterActor {
    pub stats: RouterStats,
    pub pending: bool,
}

impl ChangeRouterActor {
    pub fn new() -> (r: Self)
        ensures
            r.stats.dns_attempts == 0,
            r.stats.dns_successes == 0,
            r.stats.vpn_invocations == 0,
            !r.pending,
    {
        ChangeRouterActor {
            stats: RouterStats { dns_attempts: 0, dns_successes: 0, vpn_invocations: 0 },
            pending: false,
        }
    }

    /// Decide what one incoming event starts: a relevant event yields the
    /// DNS update instruction carrying exactly the event's address, and
    /// leaves that update pending; any other event is dropped without
    /// side effects.
    pub fn handle(&mut self, msg: &IpChange) -> (r: Option<UpdateGandi>)
        requires
            !old(self).pending,
            old(self).stats.dns_attempts < u64::MAX,
        ensures
            r is Some <==> is_relevant_model(msg.0@),
            match r {
                Some(u) => msg.0@ matches ChangeModel::AdditionV6(a) && u.0@ == a,
                None => true,
            },
            final(self).pending == (r is Some),
            final(self).stats@ == route_effect(old(self).stats@, msg.0@),
    {
        if is_relevant(&msg.0) {
            match &msg.0 {
                AddressChange::AdditionV6(v6) => {
                    self.stats.dns_attempts = self.stats.dns_attempts + 1;
                    self.pending = true;
                    Some(
                        UpdateGandi(
                            IpV6Address { address: v6.address.clone(), scope: v6.scope },
                        ),
                    )
                },
                _ => {
                    proof {
                        assert(false);
                    }
                    None
                },
            }
        } else {
            None
        }
    }

    /// Take the reported outcome of the pending DNS update: success, and
    /// only success, issues the VPN peer update for the same event; on
    /// failure nothing further happens until the next relevant event.
    pub fn dns_completed(&mut self, outcome: Result<(), ()>) -> (r: Option<UpdateWireguard>)
        requires
            old(self).pending,
            old(self).stats.dns_successes < u64::MAX,
            old(self).stats.vpn_invocations < u64::MAX,
        ensures
            r is Some <==> outcome is Ok,
            !final(self).pending,
            final(self).stats@ == complete_effect(old(self).stats@, outcome is Ok),
    {
        self.pending = false;
        match outcome {
            Ok(_) => {
                self.stats.dns_successes = self.stats.dns_successes + 1;
                self.stats.vpn_invocations = self.stats.vpn_invocations + 1;
                Some(UpdateWireguard)
            },
            Err(_) => None,
        }
    }
}

} // verus!
