use wire_sentinel::actors::change_router::ChangeRouterActor;
use wire_sentinel::actors::gandi_updater::GandiUpdaterActor;
use wire_sentinel::actors::wireguard_updater::WireguardUpdaterActor;
use wire_sentinel::actors::{GandiUpdater, WireGuardUpdater};
use wire_sentinel::address_change::AddressChange;
use wire_sentinel::address_change::AddressScope::{Global, Link};
use wire_sentinel::address_change::IpV6Address;
use wire_sentinel::config::SentinelConfig;
use wire_sentinel::gandi_net_livedns::{update_record_request, DnsRecord};
use wire_sentinel::messages::IpChange;
use wire_sentinel::wireguard_peer::update_peer_command;

fn addition(address: &str) -> AddressChange {
    AddressChange::AdditionV6(IpV6Address { address: address.to_string(), scope: Global })
}

fn sample_events() -> Vec<AddressChange> {
    vec![
        addition("2001:db8::1"),
        AddressChange::AdditionV6(IpV6Address { address: "fe80::1".to_string(), scope: Link }),
        addition("fd00::1"),
        addition("2001:db8::2"),
        AddressChange::DeletionV6(IpV6Address { address: "2001:db8::1".to_string(), scope: Global }),
        addition("2001:db8::3"),
    ]
}

fn sample_config() -> SentinelConfig {
    SentinelConfig {
        internal_interface: "eno2".to_string(),
        wg_interface: "wg0".to_string(),
        bearer_token: "tokenvalue123".to_string(),
        domain: "example.org".to_string(),
        peer_pubkey: "PEERKEY".to_string(),
        peer_hostname: "vpn.example.org".to_string(),
        own_hostname: "home".to_string(),
    }
}

#[test]
fn failing_dns_updates_never_invoke_the_peer_updater() {
    let mut router = ChangeRouterActor::new();
    let mut vpn_invocations = 0u64;
    for event in sample_events() {
        if let Some(_dns) = router.handle(&IpChange(event)) {
            let followup = router.dns_completed(Err(()));
            if followup.is_some() {
                vpn_invocations += 1;
            }
            assert!(followup.is_none());
        }
    }
    assert_eq!(vpn_invocations, 0);
    assert_eq!(router.stats.vpn_invocations, 0);
    assert_eq!(router.stats.dns_successes, 0);
    assert_eq!(router.stats.dns_attempts, 3);
}

#[test]
fn succeeding_dns_updates_invoke_the_peer_updater_once_per_relevant_event() {
    let mut router = ChangeRouterActor::new();
    let mut vpn_invocations = 0u64;
    let mut relevant = 0u64;
    for event in sample_events() {
        if let Some(dns) = router.handle(&IpChange(event)) {
            relevant += 1;
            // The peer update instruction appears only after the DNS
            // outcome for this very event has been reported back.
            let followup = router.dns_completed(Ok(()));
            assert!(followup.is_some());
            vpn_invocations += 1;
            assert_eq!(router.stats.vpn_invocations, vpn_invocations);
            assert!(!dns.0.address.is_empty());
        }
    }
    assert_eq!(relevant, 3);
    assert_eq!(vpn_invocations, 3);
    assert_eq!(router.stats.dns_attempts, 3);
    assert_eq!(router.stats.dns_successes, 3);
}

#[test]
fn router_passes_the_observed_address_to_the_dns_updater() {
    let mut router = ChangeRouterActor::new();
    let dns = router.handle(&IpChange(addition("2001:db8::7"))).unwrap();
    assert_eq!(dns.0.address, "2001:db8::7");
    let followup = router.dns_completed(Ok(()));
    assert!(followup.is_some());
}

#[test]
fn router_drops_irrelevant_events_without_side_effects() {
    let mut router = ChangeRouterActor::new();
    let dns = router.handle(&IpChange(AddressChange::DeletionV6(IpV6Address {
        address: "2001:db8::1".to_string(),
        scope: Global,
    })));
    assert!(dns.is_none());
    assert_eq!(router.stats.dns_attempts, 0);
    assert!(!router.pending);
}

#[test]
fn dns_update_is_idempotent_on_the_record_model() {
    let change = IpV6Address { address: "2001:db8::1".to_string(), scope: Global };
    let mut once = DnsRecord { value: None };
    once.apply_update(&change);
    let mut twice = DnsRecord { value: Some("2001:db8::dead".to_string()) };
    twice.apply_update(&change);
    twice.apply_update(&change);
    assert_eq!(once.value, twice.value);
    assert_eq!(once.value.as_deref(), Some("2001:db8::1"));
}

#[test]
fn update_request_is_built_exactly() {
    let config = sample_config();
    let change = IpV6Address { address: "2001:db8::1".to_string(), scope: Global };
    let request = update_record_request(&config, &change);
    assert_eq!(
        request.url,
        "https://api.gandi.net/v5/livedns/domains/example.org/records/home/AAAA"
    );
    assert_eq!(request.authorization, "Bearer tokenvalue123");
    assert_eq!(request.body, "{\"rrset_values\":[\"2001:db8::1\"],\"rrset_ttl\":300}");
}

#[test]
fn updater_actor_builds_the_same_request() {
    let config = sample_config();
    let actor = GandiUpdaterActor::new(config);
    let change = IpV6Address { address: "2001:db8::1".to_string(), scope: Global };
    let request = actor.request_for(&wire_sentinel::messages::UpdateGandi(change));
    assert_eq!(
        request.url,
        "https://api.gandi.net/v5/livedns/domains/example.org/records/home/AAAA"
    );
}

#[test]
fn peer_command_is_built_exactly() {
    let config = sample_config();
    let args = update_peer_command(&config);
    assert_eq!(args, vec!["set", "wg0", "peer", "PEERKEY", "endpoint", "vpn.example.org:51820"]);
}

#[test]
fn peer_updater_actor_builds_the_same_command() {
    let config = sample_config();
    let actor = WireguardUpdaterActor::new(config);
    let args = actor.command_for();
    assert_eq!(args[5], "vpn.example.org:51820");
    assert_eq!(args.len(), 6);
}

#[test]
fn fanout_subscribers_decide_by_relevance() {
    let relevant = addition("2001:db8::1");
    let irrelevant = addition("fd00::1");
    let picked = GandiUpdater::wants_update(&relevant).unwrap();
    assert_eq!(picked.address, "2001:db8::1");
    assert!(GandiUpdater::wants_update(&irrelevant).is_none());
    assert!(WireGuardUpdater::wants_update(&relevant));
    assert!(!WireGuardUpdater::wants_update(&irrelevant));
}
