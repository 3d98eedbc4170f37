//! Network namespaces: `ip netns`.

use crate::client::{resolved, unbuffered, IpCommand, PathCandidate};
use crate::error::Error;
use crate::process::ProcessRequest;
use crate::render::decimal;
use crate::text::{decimal_text, parse_u32, parsed_u32, split_whitespace, trim, trimmed, words};
use vstd::prelude::*;
use vstd::string::StringExecFns;

verus! {

/// A named network namespace, as the command reports it.
#[derive(Debug, Clone)]
pub struct Namespace {
    pub name: String,
    pub id: Option<u32>,
}

/// The `ip netns` commands of a client.
#[derive(Clone, Debug)]
pub struct IpNetNamespaceCommand<'l> {
    pub ip_command: &'l IpCommand,
}

/// The text of the id to give to a namespace: the number, or `auto` where the kernel
/// is to choose.
pub open spec fn id_text(network_namespace_id: Option<u32>) -> Seq<char> {
    match network_namespace_id {
        Some(id) => decimal(id as nat),
        None => "auto"@,
    }
}

/// The numbers that the words stand for, where each word is a number.
pub open spec fn numbers(words: Seq<Seq<char>>) -> Option<Seq<u32>> {
    if forall|i: int| 0 <= i < words.len() ==> parsed_u32(#[trigger] words[i]) is Some {
        Some(Seq::new(words.len(), |i: int| parsed_u32(words[i])->Some_0))
    } else {
        None
    }
}

impl<'l> IpNetNamespaceCommand<'l> {
    /// The `ip netns` commands of the client.
    pub fn new(ip_command: &'l IpCommand) -> (r: Self)
        ensures
            r.ip_command == ip_command,
    {
        Self { ip_command }
    }

    /// The request for a subcommand of `netns` with the given operands.
    fn request(&self, action: &str, operands: Vec<String>) -> (r: Result<ProcessRequest, Error>)
        ensures
            r matches Ok(request) && self.ip_command.asks(
                request,
                seq!["netns"@, action@] + operands.deep_view(),
                false,
            ),
    {
        let mut args: Vec<String> = Vec::new();
        args.push(String::from_str("netns"));
        args.push(String::from_str(action));
        let ghost head = args.deep_view();
        assert(head =~= seq!["netns"@, action@]);
        let mut operands = operands;
        let ghost tail = operands.deep_view();
        args.append(&mut operands);
        let all = args.as_slice();
        assert(all.deep_view() =~= head + tail);
        self.ip_command.command(all, false)
    }

    /// Show all of the named network namespaces.
    pub fn list(&self) -> (r: Result<ProcessRequest, Error>)
        ensures
            r matches Ok(request) && self.ip_command.asks(request, seq!["netns"@, "list"@], false),
    {
        let operands: Vec<String> = Vec::new();
        assert(seq!["netns"@, "list"@] + operands.deep_view() =~= seq!["netns"@, "list"@]);
        self.request("list", operands)
    }

    /// Create a new named network namespace.
    pub fn add(&self, network_namespace_name: &str) -> (r: Result<ProcessRequest, Error>)
        ensures
            r matches Ok(request) && self.ip_command.asks(
                request,
                seq!["netns"@, "add"@, network_namespace_name@],
                false,
            ),
    {
        let mut operands: Vec<String> = Vec::new();
        operands.push(String::from_str(network_namespace_name));
        assert(seq!["netns"@, "add"@] + operands.deep_view() =~= seq![
            "netns"@,
            "add"@,
            network_namespace_name@,
        ]);
        self.request("add", operands)
    }

    /// Delete the name of a network.
    pub fn delete(&self, network_namespace_name: &str) -> (r: Result<ProcessRequest, Error>)
        ensures
            r matches Ok(request) && self.ip_command.asks(
                request,
                seq!["netns"@, "del"@, network_namespace_name@],
                false,
            ),
    {
        let mut operands: Vec<String> = Vec::new();
        operands.push(String::from_str(network_namespace_name));
        assert(seq!["netns"@, "del"@] + operands.deep_view() =~= seq![
            "netns"@,
            "del"@,
            network_namespace_name@,
        ]);
        self.request("del", operands)
    }

    /// Assign an id to a peer network namespace: the given one, or one that the kernel
    /// chooses.
    pub fn set(&self, network_namespace_name: &str, network_namespace_id: Option<u32>) -> (r:
        Result<ProcessRequest, Error>)
        ensures
            r matches Ok(request) && self.ip_command.asks(
                request,
                seq!["netns"@, "set"@, network_namespace_name@, id_text(network_namespace_id)],
                false,
            ),
    {
        let network_namespace_id = match network_namespace_id {
            Some(id) => decimal_text(id as u64),
            None => String::from_str("auto"),
        };
        let mut operands: Vec<String> = Vec::new();
        operands.push(String::from_str(network_namespace_name));
        operands.push(network_namespace_id);
        assert(seq!["netns"@, "set"@] + operands.deep_view() =~= seq![
            "netns"@,
            "set"@,
            network_namespace_name@,
            network_namespace_id@,
        ]);
        self.request("set", operands)
    }

    /// Report network namespaces names for process.
    pub fn identify(&self, process_id: u32) -> (r: Result<ProcessRequest, Error>)
        ensures
            r matches Ok(request) && self.ip_command.asks(
                request,
                seq!["netns"@, "identify"@, decimal(process_id as nat)],
                false,
            ),
    {
        let mut operands: Vec<String> = Vec::new();
        operands.push(decimal_text(process_id as u64));
        assert(seq!["netns"@, "identify"@] + operands.deep_view() =~= seq![
            "netns"@,
            "identify"@,
            decimal(process_id as nat),
        ]);
        self.request("identify", operands)
    }

    /// The name that `identify` reported: the output without the white space around
    /// it.
    pub fn identify_output(output: &str) -> (r: String)
        ensures
            r@ == trimmed(output@),
    {
        trim(output)
    }

    /// Report processes in the named network namespace.
    pub fn pids(&self, network_namespace_name: &str) -> (r: Result<ProcessRequest, Error>)
        ensures
            r matches Ok(request) && self.ip_command.asks(
                request,
                seq!["netns"@, "pids"@, network_namespace_name@],
                false,
            ),
    {
        let mut operands: Vec<String> = Vec::new();
        operands.push(String::from_str(network_namespace_name));
        assert(seq!["netns"@, "pids"@] + operands.deep_view() =~= seq![
            "netns"@,
            "pids"@,
            network_namespace_name@,
        ]);
        self.request("pids", operands)
    }

    /// The process ids that `pids` reported: the numbers that the words of the output
    /// stand for, in order, or nothing where a word is no number.
    pub fn pids_output(output: &str) -> (r: Option<Vec<u32>>)
        ensures
            match r {
                Some(ids) => numbers(words(output@)) == Some(ids@),
                None => numbers(words(output@)) is None,
            },
    {
        let found = split_whitespace(output);
        let ghost all = words(output@);
        let mut ids: Vec<u32> = Vec::new();
        let mut i: usize = 0;
        while i < found.len()
            invariant
                i <= found.len(),
                found.deep_view() == all,
                all == words(output@),
                ids@.len() == i,
                forall|k: int| 0 <= k < i ==> parsed_u32(#[trigger] all[k]) == Some(ids@[k]),
            decreases found.len() - i,
        {
            assert(all[i as int] == found@[i as int]@);
            match parse_u32(found[i].as_str()) {
                Some(id) => {
                    ids.push(id);
                },
                None => {
                    return None;
                },
            }
            i += 1;
        }
        assert(ids@ =~= Seq::new(all.len(), |i: int| parsed_u32(all[i])->Some_0));
        Some(ids)
    }

    /// The request to run a command in the named network namespace and read what it
    /// writes line by line.
    pub fn exec(
        &self,
        stdbuf: &Vec<PathCandidate>,
        network_namespace_name: &str,
        command_and_args: &[String],
    ) -> (r: Result<ProcessRequest, Error>)
        ensures
            match r {
                Ok(request) => {
                    &&& resolved(stdbuf@, Some(request.program))
                    &&& request.arguments.deep_view() == unbuffered(self.ip_command.command@)
                        + self.ip_command.prefixed(
                        seq!["netns"@, "exec"@, network_namespace_name@]
                            + command_and_args.deep_view(),
                    )
                    &&& request.timeout == self.ip_command.timeout
                    &&& !request.combined_output
                },
                Err(error) => resolved(stdbuf@, None) && error == Error::CommandNotFoundError,
            },
    {
        let mut args: Vec<String> = Vec::new();
        args.push(String::from_str("netns"));
        args.push(String::from_str("exec"));
        args.push(String::from_str(network_namespace_name));
        let ghost head = seq!["netns"@, "exec"@, network_namespace_name@];
        assert(args.deep_view() =~= head);
        let mut i: usize = 0;
        assert(command_and_args.deep_view().take(0) =~= Seq::<Seq<char>>::empty());
        assert(head + Seq::<Seq<char>>::empty() =~= head);
        while i < command_and_args.len()
            invariant
                i <= command_and_args.len(),
                args.deep_view() == head + command_and_args.deep_view().take(i as int),
            decreases command_and_args.len() - i,
        {
            let ghost before = args.deep_view();
            args.push(command_and_args[i].clone());
            assert(args.deep_view() =~= before.push(command_and_args@[i as int]@));
            assert(command_and_args.deep_view().take(i + 1) =~= command_and_args.deep_view().take(
                i as int,
            ).push(command_and_args@[i as int]@));
            assert(args.deep_view() =~= head + command_and_args.deep_view().take(i + 1));
            i += 1;
        }
        assert(command_and_args.deep_view().take(i as int) =~= command_and_args.deep_view());
        let all = args.as_slice();
        assert(all.deep_view() =~= args.deep_view());
        self.ip_command.command_with_streaming_output(stdbuf, all, false)
    }

    /// The request to report, line by line, as network namespace names are added and
    /// deleted.
    pub fn monitor(&self, stdbuf: &Vec<PathCandidate>) -> (r: Result<ProcessRequest, Error>)
        ensures
            match r {
                Ok(request) => {
                    &&& resolved(stdbuf@, Some(request.program))
                    &&& request.arguments.deep_view() == unbuffered(self.ip_command.command@)
                        + self.ip_command.prefixed(seq!["netns"@, "monitor"@])
                    &&& request.timeout == self.ip_command.timeout
                    &&& !request.combined_output
                },
                Err(error) => resolved(stdbuf@, None) && error == Error::CommandNotFoundError,
            },
    {
        let mut args: Vec<String> = Vec::new();
        args.push(String::from_str("netns"));
        args.push(String::from_str("monitor"));
        let all = args.as_slice();
        assert(all.deep_view() =~= seq!["netns"@, "monitor"@]);
        self.ip_command.command_with_streaming_output(stdbuf, all, false)
    }
}

} // verus!
