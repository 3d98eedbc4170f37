//! TUN/TAP devices: `ip tuntap`.

use crate::client::IpCommand;
use vstd::prelude::*;

verus! {

/// The `ip tuntap` commands of a client.
#[derive(Clone, Debug)]
pub struct IpTunTapCommand<'l> {
    pub ip_command: &'l IpCommand,
}

impl<'l> IpTunTapCommand<'l> {
    /// The `ip tuntap` commands of the client.
    pub fn new(ip_command: &'l IpCommand) -> (r: Self)
        ensures
            r.ip_command == ip_command,
    {
        Self { ip_command }
    }
}

} // verus!
