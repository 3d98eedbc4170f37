//! Label configuration for protocol address selection: `ip addrlabel`.

use crate::client::IpCommand;
use vstd::prelude::*;

verus! {

/// The `ip addrlabel` commands of a client.
#[derive(Clone, Debug)]
pub struct IpAddressLabelCommand<'l> {
    pub ip_command: &'l IpCommand,
}

impl<'l> IpAddressLabelCommand<'l> {
    /// The `ip addrlabel` commands of the client.
    pub fn new(ip_command: &'l IpCommand) -> (r: Self)
        ensures
            r.ip_command == ip_command,
    {
        Self { ip_command }
    }
}

} // verus!
