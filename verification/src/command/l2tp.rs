//! Tunnel ethernet over IP (L2TPv3): `ip l2tp`.

use crate::client::IpCommand;
use vstd::prelude::*;

verus! {

/// The `ip l2tp` commands of a client.
#[derive(Clone, Debug)]
pub struct IpL2tpCommand<'l> {
    pub ip_command: &'l IpCommand,
}

impl<'l> IpL2tpCommand<'l> {
    /// The `ip l2tp` commands of the client.
    pub fn new(ip_command: &'l IpCommand) -> (r: Self)
        ensures
            r.ip_command == ip_command,
    {
        Self { ip_command }
    }
}

} // verus!
