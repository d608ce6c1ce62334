//! The messages that flow between the monitoring, routing and updating
//! components.

use vstd::prelude::*;
use crate::address_change::{AddressChange, IpV6Address};

verus! {

/// One observed address change, on its way from the monitor to the router.
#[derive(Clone, Debug)]
pub struct IpChange(pub AddressChange);

/// An instruction to publish this address in the DNS record.
#[derive(Clone, Debug)]
pub struct UpdateGandi(pub IpV6Address);

/// An instruction to re-point the VPN peer endpoint. Carries no address:
/// the peer updater re-resolves the configured hostname on invocation,
/// which is why it may only be issued after the DNS update succeeded.
#[derive(Clone, Debug)]
pub struct UpdateWireguard;

} // verus!
