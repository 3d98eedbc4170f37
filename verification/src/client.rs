//! The client of the ip(8) command: where the executable is, how long it may run, and
//! in which network namespace it works.

use crate::command::{
    IpAddressCommand,
    IpAddressLabelCommand,
    IpL2tpCommand,
    IpLinkCommand,
    IpMACsecCommand,
    IpMonitorCommand,
    IpMulticastAddressCommand,
    IpMulticastRouteCommand,
    IpMulticastRuleCommand,
    IpNeighborCommand,
    IpNeighborTableCommand,
    IpNetNamespaceCommand,
    IpRouteCommand,
    IpRuleCommand,
    IpTcpMetricsCommand,
    IpTokenCommand,
    IpTransformCommand,
    IpTunTapCommand,
    IpTunnelCommand,
};
use crate::error::Error;
use crate::process::{ProcessRequest, DEFAULT_TIMEOUT};
use crate::serializer::{
    append_tokens,
    serialized,
    unrepresentable_message,
    BooleanType,
    Configuration,
    Serializer,
};
use vstd::prelude::*;
use vstd::string::StringExecFns;

verus! {

/// One place on the executable search path where a command may be.
#[derive(Debug, Clone, PartialEq, Eq)]
pub struct PathCandidate {
    /// The directory of the search path, joined with the name of the command.
    pub path: String,
    /// Whether a file is there.
    pub is_file: bool,
}

/// Whether `index` is the place of the first candidate at which a file is.
pub open spec fn first_file_at(candidates: Seq<PathCandidate>, index: int) -> bool {
    &&& 0 <= index < candidates.len()
    &&& candidates[index].is_file
    &&& forall|j: int| 0 <= j < index ==> !(#[trigger] candidates[j]).is_file
}

/// Whether `found` is what the search path gives: the path of the first candidate at
/// which a file is, and nothing where there is no file at any.
pub open spec fn resolved(candidates: Seq<PathCandidate>, found: Option<String>) -> bool {
    match found {
        Some(path) => exists|index: int| #[trigger]
            first_file_at(candidates, index) && path@ == candidates[index].path@,
        None => forall|j: int| 0 <= j < candidates.len() ==> !(#[trigger] candidates[j]).is_file,
    }
}

/// A client of the ip(8) command.
#[derive(Debug, Clone, PartialEq, Eq)]
pub struct IpCommand {
    /// The path of the executable.
    pub command: String,
    /// The time that one command may take, in milliseconds.
    pub timeout: u64,
    /// The network namespace in which commands work, if not the caller's own.
    pub namespace: Option<String>,
}

/// The arguments that stand before those of every subcommand.
pub open spec fn leading_arguments(namespace: Option<String>) -> Seq<Seq<char>> {
    match namespace {
        Some(namespace) => seq!["-json"@, "-netns"@, namespace@],
        None => seq!["-json"@],
    }
}

/// The arguments with which the line-buffering tool runs a command unbuffered.
pub open spec fn unbuffered(command: Seq<char>) -> Seq<Seq<char>> {
    seq!["-i0"@, "-o0"@, "-e0"@, command]
}

impl IpCommand {
    /// All the arguments of a command: the leading ones, then those of the subcommand.
    pub open spec fn prefixed(self, args: Seq<Seq<char>>) -> Seq<Seq<char>> {
        leading_arguments(self.namespace) + args
    }

    /// Whether `request` asks for this client's executable with the given subcommand
    /// arguments, within this client's time.
    pub open spec fn asks(
        self,
        request: ProcessRequest,
        args: Seq<Seq<char>>,
        combined_output: bool,
    ) -> bool {
        &&& request.program@ == self.command@
        &&& request.arguments.deep_view() == self.prefixed(args)
        &&& request.timeout == self.timeout
        &&& request.combined_output == combined_output
    }

    /// Whether `outcome` is what a subcommand with options comes to: the request for
    /// the subcommand followed by the options, or the error of the options.
    pub open spec fn configured_as(
        self,
        outcome: Result<ProcessRequest, Error>,
        subcommand: Seq<Seq<char>>,
        options: Result<Seq<Seq<char>>, Seq<char>>,
        combined_output: bool,
    ) -> bool {
        match options {
            Ok(tokens) => outcome matches Ok(request) && self.asks(
                request,
                subcommand + tokens,
                combined_output,
            ),
            Err(name) => outcome matches Err(Error::CommandOptionsSerializationError { message })
                && message@ == unrepresentable_message(name),
        }
    }

    /// Searches the candidates of the search path, in order, for the first at which a
    /// file is.
    pub fn path(candidates: &Vec<PathCandidate>) -> (r: Option<String>)
        ensures
            resolved(candidates@, r),
    {
        let mut i: usize = 0;
        while i < candidates.len()
            invariant
                i <= candidates.len(),
                forall|j: int| 0 <= j < i ==> !(#[trigger] candidates@[j]).is_file,
            decreases candidates.len() - i,
        {
            if candidates[i].is_file {
                assert(first_file_at(candidates@, i as int));
                return Some(candidates[i].path.clone());
            }
            i += 1;
        }
        None
    }

    /// Create a new ip(8) command client. The candidates are the places of the search
    /// path where `ip` may be, in the order of the search path.
    pub fn new(candidates: &Vec<PathCandidate>) -> (r: Result<IpCommand, Error>)
        ensures
            match r {
                Ok(client) => resolved(candidates@, Some(client.command)) && client.timeout
                    == DEFAULT_TIMEOUT && client.namespace is None,
                Err(error) => resolved(candidates@, None) && error == Error::CommandNotFoundError,
            },
    {
        match Self::path(candidates) {
            Some(command) => Ok(IpCommand { command, timeout: DEFAULT_TIMEOUT, namespace: None }),
            None => Err(Error::CommandNotFoundError),
        }
    }

    /// Create a new ip(8) command client for the specified network namespace.
    pub fn with_namespace(&self, namespace: &str) -> (r: IpCommand)
        ensures
            r.command@ == self.command@,
            r.timeout == self.timeout,
            r.namespace matches Some(name) && name@ == namespace@,
    {
        IpCommand {
            command: self.command.clone(),
            timeout: self.timeout,
            namespace: Some(String::from_str(namespace)),
        }
    }

    /// Create a new ip(8) command client whose commands may take so many milliseconds.
    pub fn with_timeout(&self, timeout: u64) -> (r: IpCommand)
        ensures
            r.command@ == self.command@,
            r.timeout == timeout,
            r.namespace == self.namespace,
    {
        IpCommand { command: self.command.clone(), timeout, namespace: self.namespace.clone() }
    }

    /// Network device.
    pub fn link(&self) -> (r: IpLinkCommand<'_>)
        ensures
            r.ip_command == self,
    {
        IpLinkCommand::new(self)
    }

    /// Protocol (IP or IPv6) address on a device.
    pub fn address(&self) -> (r: IpAddressCommand<'_>)
        ensures
            r.ip_command == self,
    {
        IpAddressCommand::new(self)
    }

    /// Label configuration for protocol address selection.
    pub fn address_label(&self) -> (r: IpAddressLabelCommand<'_>)
        ensures
            r.ip_command == self,
    {
        IpAddressLabelCommand::new(self)
    }

    /// Routing table entry.
    pub fn route(&self) -> (r: IpRouteCommand<'_>)
        ensures
            r.ip_command == self,
    {
        IpRouteCommand::new(self)
    }

    /// Rule in routing policy database.
    pub fn rule(&self) -> (r: IpRuleCommand<'_>)
        ensures
            r.ip_command == self,
    {
        IpRuleCommand::new(self)
    }

    /// Manage ARP or NDISC cache entries.
    pub fn neighbor(&self) -> (r: IpNeighborCommand<'_>)
        ensures
            r.ip_command == self,
    {
        IpNeighborCommand::new(self)
    }

    /// Manage the neighbor cache's operation.
    pub fn neighbor_table(&self) -> (r: IpNeighborTableCommand<'_>)
        ensures
            r.ip_command == self,
    {
        IpNeighborTableCommand::new(self)
    }

    /// Tunnel over IP.
    pub fn tunnel(&self) -> (r: IpTunnelCommand<'_>)
        ensures
            r.ip_command == self,
    {
        IpTunnelCommand::new(self)
    }

    /// Manage TUN/TAP devices.
    pub fn tuntap(&self) -> (r: IpTunTapCommand<'_>)
        ensures
            r.ip_command == self,
    {
        IpTunTapCommand::new(self)
    }

    /// Multicast address.
    pub fn multicast_address(&self) -> (r: IpMulticastAddressCommand<'_>)
        ensures
            r.ip_command == self,
    {
        IpMulticastAddressCommand::new(self)
    }

    /// Multicast routing cache entry.
    pub fn multicast_route(&self) -> (r: IpMulticastRouteCommand<'_>)
        ensures
            r.ip_command == self,
    {
        IpMulticastRouteCommand::new(self)
    }

    /// Rule in multicast routing policy database.
    pub fn multicast_rule(&self) -> (r: IpMulticastRuleCommand<'_>)
        ensures
            r.ip_rule_command.ip_command == self,
    {
        IpMulticastRuleCommand::new(self)
    }

    /// Watch for netlink messages.
    pub fn monitor(&self) -> (r: IpMonitorCommand<'_>)
        ensures
            r.ip_command == self,
    {
        IpMonitorCommand::new(self)
    }

    /// Manage IPSec policies.
    pub fn transform(&self) -> (r: IpTransformCommand<'_>)
        ensures
            r.ip_command == self,
    {
        IpTransformCommand::new(self)
    }

    /// Manage network namespaces.
    pub fn netns(&self) -> (r: IpNetNamespaceCommand<'_>)
        ensures
            r.ip_command == self,
    {
        IpNetNamespaceCommand::new(self)
    }

    /// Tunnel ethernet over IP (L2TPv3).
    pub fn l2tp(&self) -> (r: IpL2tpCommand<'_>)
        ensures
            r.ip_command == self,
    {
        IpL2tpCommand::new(self)
    }

    /// Manage TCP Metrics.
    pub fn tcp_metrics(&self) -> (r: IpTcpMetricsCommand<'_>)
        ensures
            r.ip_command == self,
    {
        IpTcpMetricsCommand::new(self)
    }

    /// Manage tokenized interface identifiers.
    pub fn token(&self) -> (r: IpTokenCommand<'_>)
        ensures
            r.ip_command == self,
    {
        IpTokenCommand::new(self)
    }

    /// MACsec device configuration.
    pub fn macsec(&self) -> (r: IpMACsecCommand<'_>)
        ensures
            r.ip_command == self,
    {
        IpMACsecCommand::new(self)
    }

    /// All the arguments of a command: the choice of JSON output, the namespace where
    /// one is set, then the arguments of the subcommand.
    pub fn concat_args(&self, args: &[String]) -> (r: Result<Vec<String>, Error>)
        ensures
            r matches Ok(all) && all.deep_view() == self.prefixed(args.deep_view()),
    {
        let mut combined_args: Vec<String> = Vec::new();
        combined_args.push(String::from_str("-json"));
        if let Some(namespace) = &self.namespace {
            combined_args.push(String::from_str("-netns"));
            combined_args.push(namespace.clone());
        }
        assert(combined_args.deep_view() =~= leading_arguments(self.namespace));
        let mut i: usize = 0;
        assert(args.deep_view().take(0) =~= Seq::<Seq<char>>::empty());
        assert(self.prefixed(Seq::empty()) =~= leading_arguments(self.namespace));
        while i < args.len()
            invariant
                i <= args.len(),
                combined_args.deep_view() == self.prefixed(args.deep_view().take(i as int)),
            decreases args.len() - i,
        {
            let ghost before = combined_args.deep_view();
            combined_args.push(args[i].clone());
            assert(combined_args.deep_view() =~= before.push(args@[i as int]@));
            assert(args.deep_view().take(i + 1) =~= args.deep_view().take(i as int).push(
                args@[i as int]@,
            ));
            assert(combined_args.deep_view() =~= self.prefixed(args.deep_view().take(i + 1)));
            i += 1;
        }
        assert(args.deep_view().take(i as int) =~= args.deep_view());
        Ok(combined_args)
    }

    /// The request to run the subcommand and collect what it writes.
    pub fn command(&self, args: &[String], combined_output: bool) -> (r: Result<
        ProcessRequest,
        Error,
    >)
        ensures
            r matches Ok(request) && self.asks(request, args.deep_view(), combined_output),
    {
        match self.concat_args(args) {
            Ok(arguments) => Ok(
                ProcessRequest {
                    program: self.command.clone(),
                    arguments,
                    timeout: self.timeout,
                    combined_output,
                },
            ),
            Err(error) => Err(error),
        }
    }

    /// The request to run the subcommand unbuffered, so that each line it writes can
    /// be read as soon as it is written. The candidates are the places of the search
    /// path where the line-buffering tool `stdbuf` may be.
    pub fn command_with_streaming_output(
        &self,
        stdbuf: &Vec<PathCandidate>,
        args: &[String],
        combined_output: bool,
    ) -> (r: Result<ProcessRequest, Error>)
        ensures
            match r {
                Ok(request) => {
                    &&& resolved(stdbuf@, Some(request.program))
                    &&& request.arguments.deep_view() == unbuffered(self.command@) + self.prefixed(
                        args.deep_view(),
                    )
                    &&& request.timeout == self.timeout
                    &&& request.combined_output == combined_output
                },
                Err(error) => resolved(stdbuf@, None) && error == Error::CommandNotFoundError,
            },
    {
        let mut combined_args: Vec<String> = Vec::new();
        combined_args.push(String::from_str("-i0"));
        combined_args.push(String::from_str("-o0"));
        combined_args.push(String::from_str("-e0"));
        combined_args.push(self.command.clone());
        assert(combined_args.deep_view() =~= unbuffered(self.command@));
        match self.concat_args(args) {
            Ok(rest) => {
                append_tokens(&mut combined_args, rest);
            },
            Err(error) => {
                return Err(error);
            },
        }
        match Self::path(stdbuf) {
            Some(program) => Ok(
                ProcessRequest {
                    program,
                    arguments: combined_args,
                    timeout: self.timeout,
                    combined_output,
                },
            ),
            None => Err(Error::CommandNotFoundError),
        }
    }

    /// The request to run a subcommand with the options of a configuration value, if
    /// one is given. Boolean options are written with `on` and `off`.
    pub fn configured<C: Configuration>(
        &self,
        object: &str,
        action: &str,
        configuration: Option<&C>,
    ) -> (r: Result<ProcessRequest, Error>)
        ensures
            self.configured_as(
                r,
                seq![object@, action@],
                match configuration {
                    Some(value) => serialized(BooleanType::OnOff, value.spec_fields()),
                    None => Ok(Seq::empty()),
                },
                false,
            ),
    {
        let mut args: Vec<String> = Vec::new();
        args.push(String::from_str(object));
        args.push(String::from_str(action));
        assert(args.deep_view() =~= seq![object@, action@]);
        if let Some(value) = configuration {
            match Serializer::new(BooleanType::OnOff).into_args(value) {
                Ok(options) => {
                    append_tokens(&mut args, options);
                },
                Err(error) => {
                    return Err(error);
                },
            }
        } else {
            assert(args.deep_view() =~= seq![object@, action@] + Seq::<Seq<char>>::empty());
        }
        let all = args.as_slice();
        assert(all.deep_view() =~= args.deep_view());
        self.command(all, false)
    }

    /// The request for the version of the ip(8) command.
    pub fn version(&self) -> (r: Result<ProcessRequest, Error>)
        ensures
            r matches Ok(request) && self.asks(request, seq!["-Version"@], false),
    {
        let mut args: Vec<String> = Vec::new();
        args.push(String::from_str("-Version"));
        let all = args.as_slice();
        assert(all.deep_view() =~= seq!["-Version"@]);
        self.command(all, false)
    }
}

} // verus!
