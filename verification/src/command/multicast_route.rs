//! Multicast routing cache entries: `ip mroute`.

use crate::client::IpCommand;
use vstd::prelude::*;

verus! {

/// The `ip mroute` commands of a client.
#[derive(Clone, Debug)]
pub struct IpMulticastRouteCommand<'l> {
    pub ip_command: &'l IpCommand,
}

impl<'l> IpMulticastRouteCommand<'l> {
    /// The `ip mroute` commands of the client.
    pub fn new(ip_command: &'l IpCommand) -> (r: Self)
        ensures
            r.ip_command == ip_command,
    {
        Self { ip_command }
    }
}

} // verus!
