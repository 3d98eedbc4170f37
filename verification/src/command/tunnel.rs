//! Tunnels over IP: `ip tunnel`.

use crate::client::IpCommand;
use vstd::prelude::*;

verus! {

/// The `ip tunnel` commands of a client.
#[derive(Clone, Debug)]
pub struct IpTunnelCommand<'l> {
    pub ip_command: &'l IpCommand,
}

impl<'l> IpTunnelCommand<'l> {
    /// The `ip tunnel` commands of the client.
    pub fn new(ip_command: &'l IpCommand) -> (r: Self)
        ensures
            r.ip_command == ip_command,
    {
        Self { ip_command }
    }
}

} // verus!
