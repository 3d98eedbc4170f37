//! Multicast addresses: `ip maddress`.

use crate::client::IpCommand;
use vstd::prelude::*;

verus! {

/// The `ip maddress` commands of a client.
#[derive(Clone, Debug)]
pub struct IpMulticastAddressCommand<'l> {
    pub ip_command: &'l IpCommand,
}

impl<'l> IpMulticastAddressCommand<'l> {
    /// The `ip maddress` commands of the client.
    pub fn new(ip_command: &'l IpCommand) -> (r: Self)
        ensures
            r.ip_command == ip_command,
    {
        Self { ip_command }
    }
}

} // verus!
