//! Reacts to changes of a host's global IPv6 address: monitor lines are
//! parsed into structured address-change events, filtered for relevance,
//! and routed to a DNS record update followed — only on success — by a
//! VPN peer endpoint update.

pub mod actors;
pub mod address_change;
pub mod config;
pub mod gandi_net_livedns;
pub mod grammar;
pub mod messages;
pub mod parse_monitor;
pub mod relevance;
pub mod wireguard_peer;
