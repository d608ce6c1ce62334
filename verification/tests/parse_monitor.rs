use wire_sentinel::address_change::AddressChange::{AdditionV4, AdditionV6, DeletionV4, DeletionV6};
use wire_sentinel::address_change::AddressScope::{Global, Link};
use wire_sentinel::address_change::{IpV4Address, IpV6Address};
use wire_sentinel::parse_monitor::parse_line;

#[test]
fn test_parse_line_lifetime_forever() {
    assert!(matches!(parse_line("   valid_lft forever preferred_lft forever"), Ok(None)));
}

#[test]
fn test_parse_line_lifetime_seconds() {
    assert!(matches!(parse_line("   valid_lft 7201sec preferred_lft 1799sec"), Ok(None)));
}

#[test]
fn test_parse_line_ipv4_addition() {
    let actual = parse_line("[ADDR]3: eno2    inet 192.168.1.2/24 brd 192.168.1.255 scope global noprefixroute eno2");

    assert!(matches!(
        actual,
        Ok(Some(AdditionV4(IpV4Address {
            address: _,
            scope: Global,
        })))
    ));

    match actual.unwrap().unwrap() {
        AdditionV4(address) => {
            assert_eq!(address.address, "192.168.1.2")
        }
        AdditionV6(_) => {
            assert_eq!(true, false)
        }
        DeletionV4(_) => {
            assert_eq!(true, false)
        }
        DeletionV6(_) => {
            assert_eq!(true, false)
        }
    };
}

#[test]
fn test_parse_line_ipv4_addition_no_brd() {
    let actual = parse_line("[ADDR]3: eno2    inet 192.168.1.2/24 scope global eno2");

    assert!(matches!(
        actual,
        Ok(Some(AdditionV4(IpV4Address {
            address: _,
            scope: Global,
        })))
    ));

    match actual.unwrap().unwrap() {
        AdditionV4(address) => {
            assert_eq!(address.address, "192.168.1.2")
        }
        AdditionV6(_) => {
            assert_eq!(true, false)
        }
        DeletionV4(_) => {
            assert_eq!(true, false)
        }
        DeletionV6(_) => {
            assert_eq!(true, false)
        }
    };
}

#[test]
fn test_parse_line_ipv4_deletion() {
    let actual = parse_line("[ADDR][ADDR]Deleted 3: eno2    inet 192.168.1.2/24 brd 192.168.1.255 scope global noprefixroute eno2");

    assert!(matches!(
        actual,
        Ok(Some(DeletionV4(IpV4Address {
            address: _,
            scope: Global,
        })))
    ));

    match actual.unwrap().unwrap() {
        AdditionV4(_) => {
            assert_eq!(true, false)
        }
        AdditionV6(_) => {
            assert_eq!(true, false)
        }
        DeletionV4(address) => {
            assert_eq!(address.address, "192.168.1.2")
        }
        DeletionV6(_) => {
            assert_eq!(true, false)
        }
    };
}

#[test]
fn test_parse_line_ipv6_addition_link() {
    let actual = parse_line("[ADDR]3: eno2    inet6 fe80::1234:5678:9876:5432/64 scope link tentative noprefixroute");
    assert!(matches!(
        actual,
        Ok(Some(AdditionV6(IpV6Address {
            address: _,
            scope: Link,
        })))
    ));

    match actual.unwrap().unwrap() {
        AdditionV4(_) => {
            assert_eq!(true, false)
        }
        AdditionV6(address) => {
            assert_eq!(address.address, "fe80::1234:5678:9876:5432")
        }
        DeletionV4(_) => {
            assert_eq!(true, false)
        }
        DeletionV6(_) => {
            assert_eq!(true, false)
        }
    };
}

#[test]
fn test_parse_line_ipv6_deletion_global() {
    let actual = parse_line("[ADDR]Deleted 3: eno2    inet6 2222:ab:ab11:1111:2222:3333:4444:5555/64 scope global dynamic noprefixroute");

    assert!(matches!(
        actual,
        Ok(Some(DeletionV6(IpV6Address {
            address: _,
            scope: Global,
        })))
    ));

    match actual.unwrap().unwrap() {
        AdditionV4(_) => {
            assert_eq!(true, false)
        }
        AdditionV6(_) => {
            assert_eq!(true, false)
        }
        DeletionV6(address) => {
            assert_eq!(address.address, "2222:ab:ab11:1111:2222:3333:4444:5555")
        }
        DeletionV4(_) => {
            assert_eq!(true, false)
        }
    }
}

#[test]
fn test_parse_line_ipv6_addition_fd_range() {
    let actual = parse_line("[ADDR]3: eno2    inet6 fd00::abcd:ef12:3456:7890/64 scope global dynamic noprefixroute");

    assert!(matches!(
        actual,
        Ok(Some(AdditionV6(IpV6Address {
            address: _,
            scope: Global,
        })))
    ));

    match actual.unwrap().unwrap() {
        AdditionV4(_) => {
            assert_eq!(true, false)
        }
        AdditionV6(address) => {
            assert_eq!(address.address, "fd00::abcd:ef12:3456:7890")
        }
        DeletionV4(_) => {
            assert_eq!(true, false)
        }
        DeletionV6(_) => {
            assert_eq!(true, false)
        }
    }
}
