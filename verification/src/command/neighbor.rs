//! ARP or NDISC cache entries: `ip neighbour`.

use crate::client::IpCommand;
use vstd::prelude::*;

verus! {

/// The `ip neighbour` commands of a client.
#[derive(Clone, Debug)]
pub struct IpNeighborCommand<'l> {
    pub ip_command: &'l IpCommand,
}

impl<'l> IpNeighborCommand<'l> {
    /// The `ip neighbour` commands of the client.
    pub fn new(ip_command: &'l IpCommand) -> (r: Self)
        ensures
            r.ip_command == ip_command,
    {
        Self { ip_command }
    }
}

} // verus!
