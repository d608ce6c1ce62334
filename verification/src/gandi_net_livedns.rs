//! The DNS update action: what one record update request contains, and
//! what it does to the provider-side record.
//!
//! Sending the request over HTTPS is the caller's business; the library
//! builds the request exactly and models its declarative effect.

use vstd::prelude::*;
use vstd::string::{StrSliceExecFns, StringExecFns};
use crate::address_change::IpV6Address;
use crate::config::SentinelConfig;

verus! {

/// The record update endpoint for this domain and hostname.
pub open spec fn update_url(domain: Seq<char>, host: Seq<char>) -> Seq<char> {
    "https://api.gandi.net/v5/livedns/domains/"@ + domain + "/records/"@ + host + "/AAAA"@
}

/// The authorization header for this bearer token.
pub open spec fn auth_header(token: Seq<char>) -> Seq<char> {
    "Bearer "@ + token
}

/// The request body that sets the record to exactly this address, with
/// the fixed time to live.
pub open spec fn update_body(address: Seq<char>) -> Seq<char> {
    "{\"rrset_values\":[\""@ + address + "\"],\"rrset_ttl\":300}"@
}

/// One authenticated record update request, ready to be sent.
#[derive(Clone, Debug)]
pub struct DnsUpdateRequest {
    pub url: String,
    pub authorization: String,
    pub body: String,
}

/// The exact request that publishes `change`'s address under the
/// configured hostname.
pub fn update_record_request(config: &SentinelConfig, change: &IpV6Address) -> (r:
    DnsUpdateRequest)
    ensures
        r.url@ == update_url(config.domain@, config.own_hostname@),
        r.authorization@ == auth_header(config.bearer_token@),
        r.body@ == update_body(change.address@),
{
    let mut url = String::from_str("https://api.gandi.net/v5/livedns/domains/");
    url.append(config.domain.as_str());
    url.append("/records/");
    url.append(config.own_hostname.as_str());
    url.append("/AAAA");
    let mut authorization = String::from_str("Bearer ");
    authorization.append(config.bearer_token.as_str());
    let mut body = String::from_str("{\"rrset_values\":[\"");
    body.append(change.address.as_str());
    body.append("\"],\"rrset_ttl\":300}");
    DnsUpdateRequest { url, authorization, body }
}

/// What a successful update request leaves in the provider-side record:
/// exactly the published address, whatever was there before.
pub open spec fn record_after_update(rec: Option<Seq<char>>, address: Seq<char>) -> Option<
    Seq<char>,
> {
    Some(address)
}

/// Model of the provider-side AAAA record that update requests act on.
#[derive(Clone, Debug)]
pub struct DnsRecord {
    pub value: Option<String>,
}

impl View for DnsRecord {
    type V = Option<Seq<char>>;

    open spec fn view(&self) -> Option<Seq<char>> {
        match self.value {
            Some(v) => Some(v@),
            None => None,
        }
    }
}

impl DnsRecord {
    /// The record state after a successful update with this address.
    pub fn apply_update(&mut self, change: &IpV6Address)
        ensures
            final(self)@ == record_after_update(old(self)@, change.address@),
    {
        self.value = Some(change.address.clone());
    }
}

/// Law: the update is idempotent — applying it twice with the same
/// address leaves the same record state as applying it once.
pub proof fn lemma_update_idempotent(rec: Option<Seq<char>>, address: Seq<char>)
    ensures
        record_after_update(record_after_update(rec, address), address) == record_after_update(
            rec,
            address,
        ),
{
}

} // verus!
