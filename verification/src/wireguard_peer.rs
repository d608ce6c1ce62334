//! The VPN peer update action: the exact reconfiguration command that
//! re-points the configured peer at the configured hostname.
//!
//! Running the command is the caller's business; the library builds its
//! arguments exactly. The command takes no observed address: the peer
//! endpoint is re-resolved from the hostname, which is why the router may
//! only order this action after the DNS update for the same event
//! succeeded.

use vstd::prelude::*;
use vstd::string::{StrSliceExecFns, StringExecFns};
use crate::config::SentinelConfig;

verus! {

/// The peer endpoint: the configured hostname on the fixed port.
pub open spec fn endpoint_of(host: Seq<char>) -> Seq<char> {
    host + ":51820"@
}

/// The arguments of the peer reconfiguration command, to be run as
/// `wg <args>`; success is the process exiting with code zero.
pub fn update_peer_command(config: &SentinelConfig) -> (args: Vec<String>)
    ensures
        args@.len() == 6,
        args@[0]@ == "set"@,
        args@[1]@ == config.wg_interface@,
        args@[2]@ == "peer"@,
        args@[3]@ == config.peer_pubkey@,
        args@[4]@ == "endpoint"@,
        args@[5]@ == endpoint_of(config.peer_hostname@),
{
    let mut endpoint = String::from_str("");
    endpoint.append(config.peer_hostname.as_str());
    endpoint.append(":51820");
    proof {
        reveal_strlit("");
        assert(""@ + config.peer_hostname@ =~= config.peer_hostname@);
    }
    let mut args: Vec<String> = Vec::new();
    args.push(String::from_str("set"));
    args.push(config.wg_interface.clone());
    args.push(String::from_str("peer"));
    args.push(config.peer_pubkey.clone());
    args.push(String::from_str("endpoint"));
    args.push(endpoint);
    args
}

} // verus!
