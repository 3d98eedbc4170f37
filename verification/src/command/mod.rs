//! The subcommands of ip(8), each with the configuration values it takes.

pub mod address;
pub mod address_label;
pub mod l2tp;
pub mod link;
pub mod macsec;
pub mod monitor;
pub mod multicast_address;
pub mod multicast_route;
pub mod multicast_rule;
pub mod namespace;
pub mod neighbor;
pub mod neighbor_table;
pub mod route;
pub mod rule;
pub mod tcp_metrics;
pub mod token;
pub mod transform;
pub mod tunnel;
pub mod tuntap;

pub use self::address::IpAddressCommand;
pub use self::address_label::IpAddressLabelCommand;
pub use self::l2tp::IpL2tpCommand;
pub use self::link::IpLinkCommand;
pub use self::macsec::IpMACsecCommand;
pub use self::monitor::IpMonitorCommand;
pub use self::multicast_address::IpMulticastAddressCommand;
pub use self::multicast_route::IpMulticastRouteCommand;
pub use self::multicast_rule::IpMulticastRuleCommand;
pub use self::namespace::IpNetNamespaceCommand;
pub use self::neighbor::IpNeighborCommand;
pub use self::neighbor_table::IpNeighborTableCommand;
pub use self::route::IpRouteCommand;
pub use self::rule::IpRuleCommand;
pub use self::tcp_metrics::IpTcpMetricsCommand;
pub use self::token::IpTokenCommand;
pub use self::transform::IpTransformCommand;
pub use self::tunnel::IpTunnelCommand;
pub use self::tuntap::IpTunTapCommand;
