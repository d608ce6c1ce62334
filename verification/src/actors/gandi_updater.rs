//! The DNS updater of the gated wiring: holds the configuration and turns
//! each update instruction into the exact provider request. Sending the
//! request and reporting the outcome back to the router is the caller's
//! business.

use vstd::prelude::*;
use crate::config::SentinelConfig;
use crate::gandi_net_livedns::{auth_header, update_body, update_record_request, update_url,
    DnsUpdateRequest};
use crate::messages::UpdateGandi;

verus! {

/// The DNS updater, configured once at startup.
pub struct GandiUpdaterActor {
    pub config: SentinelConfig,
}

impl GandiUpdaterActor {
    pub fn new(config: SentinelConfig) -> (r: Self)
        ensures
            r.config == config,
    {
        GandiUpdaterActor { config }
    }

    /// The request this updater sends for one update instruction.
    pub fn request_for(&self, msg: &UpdateGandi) -> (r: DnsUpdateRequest)
        ensures
            r.url@ == update_url(self.config.domain@, self.config.own_hostname@),
            r.authorization@ == auth_header(self.config.bearer_token@),
            r.body@ == update_body(msg.0.address@),
    {
        update_record_request(&self.config, &msg.0)
    }
}

} // verus!
