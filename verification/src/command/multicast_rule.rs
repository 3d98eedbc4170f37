//! Rules in the multicast routing policy database: `ip mrule`.

use crate::client::IpCommand;
use crate::command::rule::IpRuleCommand;
use vstd::prelude::*;

verus! {

/// The `ip mrule` commands of a client. They are those of `ip rule`.
#[derive(Clone, Debug)]
pub struct IpMulticastRuleCommand<'l> {
    pub ip_rule_command: IpRuleCommand<'l>,
}

impl<'l> IpMulticastRuleCommand<'l> {
    /// The `ip mrule` commands of the client.
    pub fn new(ip_command: &'l IpCommand) -> (r: Self)
        ensures
            r.ip_rule_command.ip_command == ip_command,
    {
        let ip_rule_command = IpRuleCommand::new(ip_command);
        Self { ip_rule_command }
    }
}

} // verus!
