//! Static configuration, loaded once at startup and shared read-only
//! across all components. Loading it from disk is the caller's business;
//! the library only consumes the plain values.

use vstd::prelude::*;

verus! {

/// The configuration every component reads: the monitored interface, the
/// VPN interface and peer, and the DNS provider credentials and names.
/// Immutable once constructed; no component mutates it.
#[derive(Clone, Debug)]
pub struct SentinelConfig {
    pub internal_interface: String,
    pub wg_interface: String,
    pub bearer_token: String,
    pub domain: String,
    pub peer_pubkey: String,
    pub peer_hostname: String,
    pub own_hostname: String,
}

} // verus!
