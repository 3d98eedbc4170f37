//! Watch for netlink messages: `ip monitor`.

use crate::client::IpCommand;
use vstd::prelude::*;

verus! {

/// The `ip monitor` commands of a client.
#[derive(Clone, Debug)]
pub struct IpMonitorCommand<'l> {
    pub ip_command: &'l IpCommand,
}

impl<'l> IpMonitorCommand<'l> {
    /// The `ip monitor` commands of the client.
    pub fn new(ip_command: &'l IpCommand) -> (r: Self)
        ensures
            r.ip_command == ip_command,
    {
        Self { ip_command }
    }
}

} // verus!
