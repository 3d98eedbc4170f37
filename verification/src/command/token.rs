//! Tokenized interface identifiers: `ip token`.

use crate::client::IpCommand;
use vstd::prelude::*;

verus! {

/// The `ip token` commands of a client.
#[derive(Clone, Debug)]
pub struct IpTokenCommand<'l> {
    pub ip_command: &'l IpCommand,
}

impl<'l> IpTokenCommand<'l> {
    /// The `ip token` commands of the client.
    pub fn new(ip_command: &'l IpCommand) -> (r: Self)
        ensures
            r.ip_command == ip_command,
    {
        Self { ip_command }
    }
}

} // verus!
