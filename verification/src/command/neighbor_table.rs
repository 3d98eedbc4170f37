//! The neighbor cache's operation: `ip ntable`.

use crate::client::IpCommand;
use vstd::prelude::*;

verus! {

/// The `ip ntable` commands of a client.
#[derive(Clone, Debug)]
pub struct IpNeighborTableCommand<'l> {
    pub ip_command: &'l IpCommand,
}

impl<'l> IpNeighborTableCommand<'l> {
    /// The `ip ntable` commands of the client.
    pub fn new(ip_command: &'l IpCommand) -> (r: Self)
        ensures
            r.ip_command == ip_command,
    {
        Self { ip_command }
    }
}

} // verus!
