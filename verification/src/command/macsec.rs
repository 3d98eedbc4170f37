//! MACsec device configuration: `ip macsec`.

use crate::client::IpCommand;
use vstd::prelude::*;

verus! {

/// The `ip macsec` commands of a client.
#[derive(Clone, Debug)]
pub struct IpMACsecCommand<'l> {
    pub ip_command: &'l IpCommand,
}

impl<'l> IpMACsecCommand<'l> {
    /// The `ip macsec` commands of the client.
    pub fn new(ip_command: &'l IpCommand) -> (r: Self)
        ensures
            r.ip_command == ip_command,
    {
        Self { ip_command }
    }
}

} // verus!
