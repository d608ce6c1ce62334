use wire_sentinel::address_change::AddressChange;
use wire_sentinel::address_change::AddressScope::{Global, Link};
use wire_sentinel::address_change::{IpV4Address, IpV6Address};
use wire_sentinel::relevance::is_relevant;

fn v6(address: &str, scope: wire_sentinel::address_change::AddressScope) -> IpV6Address {
    IpV6Address { address: address.to_string(), scope }
}

fn v4(address: &str, scope: wire_sentinel::address_change::AddressScope) -> IpV4Address {
    IpV4Address { address: address.to_string(), scope }
}

#[test]
fn ipv4_changes_are_never_relevant() {
    assert!(!is_relevant(&AddressChange::AdditionV4(v4("192.168.1.2", Global))));
    assert!(!is_relevant(&AddressChange::AdditionV4(v4("192.168.1.2", Link))));
    assert!(!is_relevant(&AddressChange::DeletionV4(v4("192.168.1.2", Global))));
}

#[test]
fn deletions_are_never_relevant() {
    assert!(!is_relevant(&AddressChange::DeletionV6(v6("2001:db8::1", Global))));
    assert!(!is_relevant(&AddressChange::DeletionV6(v6("fe80::1", Link))));
}

#[test]
fn link_scope_additions_are_not_relevant() {
    assert!(!is_relevant(&AddressChange::AdditionV6(v6("fe80::1234:5678:9876:5432", Link))));
}

#[test]
fn unique_local_prefixes_are_excluded() {
    assert!(!is_relevant(&AddressChange::AdditionV6(v6("fd00::abcd:ef12:3456:7890", Global))));
    assert!(!is_relevant(&AddressChange::AdditionV6(v6("fec0::1", Global))));
}

#[test]
fn global_ipv6_addition_is_relevant() {
    assert!(is_relevant(&AddressChange::AdditionV6(v6("2001:db8::1", Global))));
}

#[test]
fn short_global_addresses_pass_the_prefix_test() {
    assert!(is_relevant(&AddressChange::AdditionV6(v6("f", Global))));
    assert!(is_relevant(&AddressChange::AdditionV6(v6("fe", Global))));
}
