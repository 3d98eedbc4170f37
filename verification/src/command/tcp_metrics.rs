//! TCP metrics: `ip tcp_metrics`.

use crate::client::IpCommand;
use vstd::prelude::*;

verus! {

/// The `ip tcp_metrics` commands of a client.
#[derive(Clone, Debug)]
pub struct IpTcpMetricsCommand<'l> {
    pub ip_command: &'l IpCommand,
}

impl<'l> IpTcpMetricsCommand<'l> {
    /// The `ip tcp_metrics` commands of the client.
    pub fn new(ip_command: &'l IpCommand) -> (r: Self)
        ensures
            r.ip_command == ip_command,
    {
        Self { ip_command }
    }
}

} // verus!
