//! Routing table entries: `ip route`.

use crate::client::IpCommand;
use vstd::prelude::*;

verus! {

/// The `ip route` commands of a client.
#[derive(Clone, Debug)]
pub struct IpRouteCommand<'l> {
    pub ip_command: &'l IpCommand,
}

impl<'l> IpRouteCommand<'l> {
    /// The `ip route` commands of the client.
    pub fn new(ip_command: &'l IpCommand) -> (r: Self)
        ensures
            r.ip_command == ip_command,
    {
        Self { ip_command }
    }
}

} // verus!
