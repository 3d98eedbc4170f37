//! IPSec policies: `ip xfrm`.

use crate::client::IpCommand;
use vstd::prelude::*;

verus! {

/// The `ip xfrm` commands of a client.
#[derive(Clone, Debug)]
pub struct IpTransformCommand<'l> {
    pub ip_command: &'l IpCommand,
}

impl<'l> IpTransformCommand<'l> {
    /// The `ip xfrm` commands of the client.
    pub fn new(ip_command: &'l IpCommand) -> (r: Self)
        ensures
            r.ip_command == ip_command,
    {
        Self { ip_command }
    }
}

} // verus!
