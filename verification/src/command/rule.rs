//! Rules in the routing policy database: `ip rule`.

use crate::client::IpCommand;
use vstd::prelude::*;

verus! {

/// The `ip rule` commands of a client.
#[derive(Clone, Debug)]
pub struct IpRuleCommand<'l> {
    pub ip_command: &'l IpCommand,
}

impl<'l> IpRuleCommand<'l> {
    /// The `ip rule` commands of the client.
    pub fn new(ip_command: &'l IpCommand) -> (r: Self)
        ensures
            r.ip_command == ip_command,
    {
        Self { ip_command }
    }
}

} // verus!
