use ip_command::client::PathCandidate;
use ip_command::command::address::{
    AddressAddConfiguration, AddressDeleteConfiguration, AddressFlushConfiguration,
    AddressSaveConfiguration, AddressShowConfiguration,
};
use ip_command::command::link::{
    LinkAddConfiguration, LinkDeleteConfiguration, LinkDeviceOrGroup, LinkSetConfiguration,
    LinkShowConfiguration, LinkStatus,
};
use ip_command::command::{
    IpAddressCommand, IpLinkCommand, IpNetNamespaceCommand, IpRuleCommand,
};
use ip_command::process::ProcessRequest;
use ip_command::{Error, IpCommand};

fn words(tokens: &[&str]) -> Vec<String> {
    tokens.iter().map(|token| token.to_string()).collect()
}

fn candidate(path: &str, is_file: bool) -> PathCandidate {
    PathCandidate { path: path.to_string(), is_file }
}

fn client() -> IpCommand {
    IpCommand::new(&vec![candidate("/usr/local/bin/ip", false), candidate("/sbin/ip", true)])
        .unwrap()
}

fn stdbuf() -> Vec<PathCandidate> {
    vec![candidate("/usr/local/bin/stdbuf", false), candidate("/usr/bin/stdbuf", true)]
}

fn request(arguments: &[&str]) -> Result<ProcessRequest, Error> {
    Ok(ProcessRequest {
        program: "/sbin/ip".to_string(),
        arguments: words(arguments),
        timeout: 5000,
        combined_output: false,
    })
}

fn streaming(arguments: &[&str]) -> Result<ProcessRequest, Error> {
    Ok(ProcessRequest {
        program: "/usr/bin/stdbuf".to_string(),
        arguments: words(arguments),
        timeout: 5000,
        combined_output: false,
    })
}

#[test]
fn first_file_on_the_search_path_wins() {
    let candidates = vec![
        candidate("/opt/bin/ip", false),
        candidate("/usr/sbin/ip", true),
        candidate("/sbin/ip", true),
    ];
    assert_eq!(IpCommand::path(&candidates), Some("/usr/sbin/ip".to_string()));
    assert_eq!(IpCommand::path(&vec![candidate("/sbin/ip", true)]), Some("/sbin/ip".to_string()));
}

#[test]
fn nothing_is_found_where_no_file_is() {
    assert_eq!(IpCommand::path(&vec![]), None);
    assert_eq!(
        IpCommand::path(&vec![candidate("/opt/bin/ip", false), candidate("/bin/ip", false)]),
        None
    );
}

#[test]
fn new_client_has_the_defaults() {
    assert_eq!(
        client(),
        IpCommand { command: "/sbin/ip".to_string(), timeout: 5000, namespace: None }
    );
}

#[test]
fn new_client_needs_the_command() {
    assert_eq!(IpCommand::new(&vec![]), Err(Error::CommandNotFoundError));
    assert_eq!(
        IpCommand::new(&vec![candidate("/sbin/ip", false)]),
        Err(Error::CommandNotFoundError)
    );
}

#[test]
fn client_for_a_namespace() {
    let base = client();
    let inside = base.with_namespace("blue");
    assert_eq!(
        inside,
        IpCommand {
            command: "/sbin/ip".to_string(),
            timeout: 5000,
            namespace: Some("blue".to_string())
        }
    );
    assert_eq!(base.namespace, None);
    assert_eq!(inside.with_namespace("red").namespace, Some("red".to_string()));
}

#[test]
fn client_with_another_timeout() {
    let slow = client().with_namespace("blue").with_timeout(60000);
    assert_eq!(
        slow,
        IpCommand {
            command: "/sbin/ip".to_string(),
            timeout: 60000,
            namespace: Some("blue".to_string())
        }
    );
    assert_eq!(slow.version().unwrap().timeout, 60000);
}

#[test]
fn arguments_start_with_the_output_format() {
    assert_eq!(
        client().concat_args(&words(&["link", "show"])),
        Ok(words(&["-json", "link", "show"]))
    );
    assert_eq!(client().concat_args(&[]), Ok(words(&["-json"])));
}

#[test]
fn arguments_name_the_namespace() {
    assert_eq!(
        client().with_namespace("blue").concat_args(&words(&["link", "show"])),
        Ok(words(&["-json", "-netns", "blue", "link", "show"]))
    );
}

#[test]
fn command_request() {
    assert_eq!(
        client().with_timeout(100).command(&words(&["netns", "list"]), true),
        Ok(ProcessRequest {
            program: "/sbin/ip".to_string(),
            arguments: words(&["-json", "netns", "list"]),
            timeout: 100,
            combined_output: true,
        })
    );
}

#[test]
fn version_request() {
    assert_eq!(client().version(), request(&["-json", "-Version"]));
}

#[test]
fn streaming_request_runs_through_stdbuf() {
    assert_eq!(
        client().command_with_streaming_output(&stdbuf(), &words(&["monitor"]), true),
        Ok(ProcessRequest {
            program: "/usr/bin/stdbuf".to_string(),
            arguments: words(&["-i0", "-o0", "-e0", "/sbin/ip", "-json", "monitor"]),
            timeout: 5000,
            combined_output: true,
        })
    );
}

#[test]
fn streaming_request_needs_stdbuf() {
    assert_eq!(
        client().command_with_streaming_output(&vec![], &words(&["monitor"]), false),
        Err(Error::CommandNotFoundError)
    );
}

#[test]
fn configured_request_without_configuration() {
    assert_eq!(
        client().configured::<LinkShowConfiguration>("link", "show", None),
        request(&["-json", "link", "show"])
    );
}

#[test]
fn subcommands_belong_to_their_client() {
    let base = client();
    assert_eq!(base.link().ip_command, &base);
    assert_eq!(base.address().ip_command, &base);
    assert_eq!(base.address_label().ip_command, &base);
    assert_eq!(base.route().ip_command, &base);
    assert_eq!(base.rule().ip_command, &base);
    assert_eq!(base.neighbor().ip_command, &base);
    assert_eq!(base.neighbor_table().ip_command, &base);
    assert_eq!(base.tunnel().ip_command, &base);
    assert_eq!(base.tuntap().ip_command, &base);
    assert_eq!(base.multicast_address().ip_command, &base);
    assert_eq!(base.multicast_route().ip_command, &base);
    assert_eq!(base.multicast_rule().ip_rule_command.ip_command, &base);
    assert_eq!(base.monitor().ip_command, &base);
    assert_eq!(base.transform().ip_command, &base);
    assert_eq!(base.netns().ip_command, &base);
    assert_eq!(base.l2tp().ip_command, &base);
    assert_eq!(base.tcp_metrics().ip_command, &base);
    assert_eq!(base.token().ip_command, &base);
    assert_eq!(base.macsec().ip_command, &base);
    let inside = base.with_namespace("blue");
    assert_eq!(IpLinkCommand::new(&inside).ip_command.namespace, Some("blue".to_string()));
    assert_eq!(IpAddressCommand::new(&inside).ip_command, &inside);
    assert_eq!(IpNetNamespaceCommand::new(&inside).ip_command, &inside);
    assert_eq!(IpRuleCommand::new(&inside).ip_command, &inside);
}

#[test]
fn link_requests() {
    let base = client();
    assert_eq!(
        base.link().add(LinkAddConfiguration {
            name: "test1".into(),
            link_type: "dummy".into(),
            ..Default::default()
        }),
        request(&["-json", "link", "add", "name", "test1", "type", "dummy"])
    );
    assert_eq!(
        base.link().delete(LinkDeleteConfiguration {
            device: LinkDeviceOrGroup::Device("test1".into()),
            link_type: "dummy".into(),
        }),
        request(&["-json", "link", "delete", "dev", "test1", "type", "dummy"])
    );
    assert_eq!(
        base.link().set(LinkSetConfiguration {
            device: LinkDeviceOrGroup::Device("test2".into()),
            state: Some(LinkStatus::Up),
            arp: Some(false),
            ..Default::default()
        }),
        request(&["-json", "link", "set", "dev", "test2", "up", "arp", "off"])
    );
    assert_eq!(base.link().show(None), request(&["-json", "link", "show"]));
    assert_eq!(
        base.link().show(Some(LinkShowConfiguration {
            device: LinkDeviceOrGroup::Device("dummy1".into()),
            ..Default::default()
        })),
        request(&["-json", "link", "show", "dev", "dummy1"])
    );
}

#[test]
fn link_requests_in_a_namespace() {
    let inside = client().with_namespace("ip-command-test-link-set-dummy");
    assert_eq!(
        inside.link().show(Some(LinkShowConfiguration {
            device: LinkDeviceOrGroup::Device("dummy1".into()),
            ..Default::default()
        })),
        request(&[
            "-json",
            "-netns",
            "ip-command-test-link-set-dummy",
            "link",
            "show",
            "dev",
            "dummy1"
        ])
    );
}

#[test]
fn link_requests_without_a_device_fail() {
    let base = client();
    let error = Err(Error::CommandOptionsSerializationError {
        message: "no encoding for the value of device".to_string(),
    });
    assert_eq!(base.link().delete(LinkDeleteConfiguration::default()), error);
    assert_eq!(base.link().set(LinkSetConfiguration::default()), error);
    assert_eq!(base.link().show(Some(LinkShowConfiguration::default())), error);
}

#[test]
fn address_requests() {
    let base = client();
    let add = AddressAddConfiguration {
        local: "172.80.0.1".into(),
        broadcast: Some("172.80.0.255".into()),
        device: "test_addr0".into(),
        ..Default::default()
    };
    let options = ["local", "172.80.0.1", "broadcast", "172.80.0.255", "dev", "test_addr0"];
    for (action, result) in [
        ("add", base.address().add(add.clone())),
        ("change", base.address().change(add.clone())),
        ("replace", base.address().replace(add.clone())),
    ] {
        let mut expected = vec!["-json", "address", action];
        expected.extend(options);
        assert_eq!(result, request(&expected));
    }
    assert_eq!(
        base.address().delete(AddressDeleteConfiguration {
            local: "172.80.0.2".into(),
            device: "test_addr1".into(),
            ..Default::default()
        }),
        request(&["-json", "address", "del", "local", "172.80.0.2", "dev", "test_addr1"])
    );
    assert_eq!(base.address().show(None), request(&["-json", "address", "show"]));
    assert_eq!(
        base.address().show(Some(AddressShowConfiguration {
            device: "test_addr0".into(),
            ..Default::default()
        })),
        request(&["-json", "address", "show", "dev", "test_addr0"])
    );
    assert_eq!(base.address().flush(None), request(&["-json", "address", "flush"]));
    assert_eq!(
        base.address().flush(Some(AddressFlushConfiguration {
            device: Some("test_addr2".into()),
            ..Default::default()
        })),
        request(&["-json", "address", "flush", "dev", "test_addr2"])
    );
    assert_eq!(base.address().save(None), request(&["-json", "address", "save"]));
    assert_eq!(
        base.address().save(Some(AddressSaveConfiguration {
            device: Some("test_addr3".into()),
            ..Default::default()
        })),
        request(&["-json", "address", "save", "dev", "test_addr3"])
    );
    assert_eq!(base.address().restore(), request(&["-json", "address", "restore"]));
}

#[test]
fn address_report_loses_its_empty_objects() {
    assert_eq!(
        IpAddressCommand::show_output("[{},{\"ifindex\":1,\"addr_info\":[{}]},{}]"),
        "[{\"ifindex\":1,\"addr_info\":[{}]}]"
    );
    assert_eq!(IpAddressCommand::show_output("[{},{},{\"a\":1}]"), "[{\"a\":1}]");
    assert_eq!(IpAddressCommand::show_output("[{\"a\":1},{},{}]"), "[{\"a\":1}]");
    assert_eq!(IpAddressCommand::show_output("[{},{}]"), "[{}]");
    assert_eq!(IpAddressCommand::show_output("[{\"a\":{}}]"), "[{\"a\":{}}]");
    assert_eq!(IpAddressCommand::show_output("[]"), "[]");
    assert_eq!(IpAddressCommand::show_output(""), "");
}

#[test]
fn namespace_requests() {
    let base = client();
    assert_eq!(base.netns().list(), request(&["-json", "netns", "list"]));
    assert_eq!(
        base.netns().add("ip-command-test-add-namespace"),
        request(&["-json", "netns", "add", "ip-command-test-add-namespace"])
    );
    assert_eq!(
        base.netns().delete("ip-command-test-add-namespace"),
        request(&["-json", "netns", "del", "ip-command-test-add-namespace"])
    );
    assert_eq!(
        base.netns().pids("ip-command-test-exec-and-pids-namespace"),
        request(&["-json", "netns", "pids", "ip-command-test-exec-and-pids-namespace"])
    );
    assert_eq!(
        base.netns().identify(4711),
        request(&["-json", "netns", "identify", "4711"])
    );
}

#[test]
fn namespace_id_is_a_number_or_auto() {
    let base = client();
    assert_eq!(
        base.netns().set("ip-command-test-set-namespace", Some(500)),
        request(&["-json", "netns", "set", "ip-command-test-set-namespace", "500"])
    );
    assert_eq!(
        base.netns().set("ip-command-test-set-namespace", None),
        request(&["-json", "netns", "set", "ip-command-test-set-namespace", "auto"])
    );
    assert_eq!(
        base.netns().set("n", Some(4294967295)),
        request(&["-json", "netns", "set", "n", "4294967295"])
    );
    assert_eq!(base.netns().set("n", Some(0)), request(&["-json", "netns", "set", "n", "0"]));
}

#[test]
fn namespace_streaming_requests() {
    let base = client();
    assert_eq!(
        base.netns().monitor(&stdbuf()),
        streaming(&["-i0", "-o0", "-e0", "/sbin/ip", "-json", "netns", "monitor"])
    );
    assert_eq!(
        base.netns().exec(
            &stdbuf(),
            "ip-command-test-exec-and-identify-namespace",
            &words(&["/target/debug/namespaced_process", "5"])
        ),
        streaming(&[
            "-i0",
            "-o0",
            "-e0",
            "/sbin/ip",
            "-json",
            "netns",
            "exec",
            "ip-command-test-exec-and-identify-namespace",
            "/target/debug/namespaced_process",
            "5"
        ])
    );
    assert_eq!(base.netns().monitor(&vec![]), Err(Error::CommandNotFoundError));
    assert_eq!(base.netns().exec(&vec![], "n", &[]), Err(Error::CommandNotFoundError));
}

#[test]
fn identified_namespace_is_trimmed() {
    assert_eq!(
        IpNetNamespaceCommand::identify_output("ip-command-test-exec-and-identify-namespace\n"),
        "ip-command-test-exec-and-identify-namespace"
    );
    assert_eq!(IpNetNamespaceCommand::identify_output("\n"), "");
}

#[test]
fn process_ids_are_read_word_by_word() {
    assert_eq!(IpNetNamespaceCommand::pids_output("4711\n4712\n"), Some(vec![4711, 4712]));
    assert_eq!(IpNetNamespaceCommand::pids_output(" 1\t2  3 "), Some(vec![1, 2, 3]));
    assert_eq!(IpNetNamespaceCommand::pids_output(""), Some(vec![]));
    assert_eq!(IpNetNamespaceCommand::pids_output("4711\nx\n"), None);
    assert_eq!(IpNetNamespaceCommand::pids_output("4294967296"), None);
    assert_eq!(IpNetNamespaceCommand::pids_output("-1"), None);
}
