//! The VPN peer updater of the gated wiring: holds the configuration and
//! builds the exact reconfiguration command for each peer update
//! instruction. Running the command is the caller's business; its failure
//! is logged and has no further effect.

use vstd::prelude::*;
use crate::config::SentinelConfig;
use crate::wireguard_peer::{endpoint_of, update_peer_command};

verus! {

/// The VPN peer updater, configured once at startup.
pub struct WireguardUpdaterActor {
    pub config: SentinelConfig,
}

impl WireguardUpdaterActor {
    pub fn new(config: SentinelConfig) -> (r: Self)
        ensures
            r.config == config,
    {
        WireguardUpdaterActor { config }
    }

    /// The command this updater runs for one peer update instruction.
    pub fn command_for(&self) -> (args: Vec<String>)
        ensures
            args@.len() == 6,
            args@[0]@ == "set"@,
            args@[1]@ == self.config.wg_interface@,
            args@[2]@ == "peer"@,
            args@[3]@ == self.config.peer_pubkey@,
            args@[4]@ == "endpoint"@,
            args@[5]@ == endpoint_of(self.config.peer_hostname@),
    {
        update_peer_command(&self.config)
    }
}

} // verus!
