use ip_command::command::address::{
    AddressAddConfiguration, AddressAddConfigurationFlag, AddressConfigurationFlag,
    AddressDeleteConfiguration, AddressFlushConfiguration, AddressFlushOrSaveConfiguration,
    AddressSaveConfiguration, AddressShowConfiguration,
};
use ip_command::command::link::{
    ExpressDataPathConfiguration, ExpressDataPathVariant, LinkAddConfiguration,
    LinkDeleteConfiguration, LinkDeviceOrGroup, LinkSetConfiguration, LinkShowConfiguration,
    LinkStatus, MasterSetConfiguration,
};
use ip_command::serializer::{BooleanType, Configuration, Enumerated, Serializer};
use ip_command::Error;

fn words(tokens: &[&str]) -> Vec<String> {
    tokens.iter().map(|token| token.to_string()).collect()
}

fn args<C: Configuration>(value: &C) -> Result<Vec<String>, Error> {
    Serializer::new(BooleanType::OnOff).into_args(value)
}

#[test]
fn link_add_with_every_field_but_the_device() {
    let configuration = LinkAddConfiguration {
        name: "test0".into(),
        device: None,
        link_type: "dummy".into(),
        transmit_queue_length: Some(1u32),
        address: Some("02:00:00:00:01:00".into()),
        broadcast: Some("FF:FF:FF:FF:FF:FF".into()),
        mtu: Some(1400u32),
        index: Some(100u32),
        number_transmit_queues: Some(1u32),
        number_receive_queues: Some(1u32),
        gso_maximum_size: Some(65536u32),
        gso_maximum_segments: Some(10u32),
    };
    assert_eq!(
        args(&configuration),
        Ok(words(&[
            "name",
            "test0",
            "txqueuelen",
            "1",
            "address",
            "02:00:00:00:01:00",
            "broadcast",
            "FF:FF:FF:FF:FF:FF",
            "mtu",
            "1400",
            "index",
            "100",
            "numtxqueues",
            "1",
            "numrxqueues",
            "1",
            "gso_max_size",
            "65536",
            "gso_max_segs",
            "10",
            "type",
            "dummy",
        ]))
    );
}

#[test]
fn link_add_with_name_and_type_only() {
    let configuration = LinkAddConfiguration {
        name: "test1".into(),
        link_type: "dummy".into(),
        ..Default::default()
    };
    assert_eq!(args(&configuration), Ok(words(&["name", "test1", "type", "dummy"])));
}

#[test]
fn link_add_default_has_empty_name_and_type() {
    assert_eq!(args(&LinkAddConfiguration::default()), Ok(words(&["name", "", "type", ""])));
}

#[test]
fn link_add_on_a_physical_device() {
    let configuration = LinkAddConfiguration {
        name: "vlan7".into(),
        device: Some("eth0".into()),
        link_type: "vlan".into(),
        ..Default::default()
    };
    assert_eq!(
        args(&configuration),
        Ok(words(&["name", "vlan7", "link", "eth0", "type", "vlan"]))
    );
}

#[test]
fn link_delete_by_device() {
    let configuration = LinkDeleteConfiguration {
        device: LinkDeviceOrGroup::Device("test1".into()),
        link_type: "dummy".into(),
    };
    assert_eq!(args(&configuration), Ok(words(&["dev", "test1", "type", "dummy"])));
}

#[test]
fn link_delete_by_group() {
    let configuration = LinkDeleteConfiguration {
        device: LinkDeviceOrGroup::DeviceGroup(42),
        link_type: "dummy".into(),
    };
    assert_eq!(args(&configuration), Ok(words(&["group", "42", "type", "dummy"])));
}

#[test]
fn link_delete_without_a_device_fails() {
    assert_eq!(
        args(&LinkDeleteConfiguration::default()),
        Err(Error::CommandOptionsSerializationError {
            message: "no encoding for the value of device".to_string()
        })
    );
}

#[test]
fn device_or_group_tokens() {
    assert_eq!(LinkDeviceOrGroup::Device("eth0".into()).serialize(), Ok(words(&["dev", "eth0"])));
    assert_eq!(LinkDeviceOrGroup::DeviceGroup(0).serialize(), Ok(words(&["group", "0"])));
    assert_eq!(
        LinkDeviceOrGroup::DeviceGroup(4294967295).serialize(),
        Ok(words(&["group", "4294967295"]))
    );
    assert_eq!(
        LinkDeviceOrGroup::Unset.serialize(),
        Err(Error::CommandOptionsSerializationError {
            message: "neither a device nor a group is chosen".to_string()
        })
    );
    assert!(matches!(LinkDeviceOrGroup::default(), LinkDeviceOrGroup::Unset));
}

#[test]
fn link_status_tokens() {
    assert_eq!(LinkStatus::Up.serialize(), words(&["up"]));
    assert_eq!(LinkStatus::Down.serialize(), words(&["down"]));
}

#[test]
fn master_tokens() {
    assert_eq!(MasterSetConfiguration::Enslaved("br0".into()).serialize(), words(&["dev", "br0"]));
    assert_eq!(MasterSetConfiguration::Release.serialize(), words(&["nomaster"]));
}

#[test]
fn express_data_path_variant_keywords() {
    assert_eq!(ExpressDataPathVariant::Default.to_string(), "xdp");
    assert_eq!(ExpressDataPathVariant::Generic.to_string(), "xdpgeneric");
    assert_eq!(ExpressDataPathVariant::Driver.to_string(), "xdpdrv");
    assert_eq!(ExpressDataPathVariant::Offload.to_string(), "xdpoffload");
    assert!(matches!(ExpressDataPathVariant::default(), ExpressDataPathVariant::Default));
}

#[test]
fn express_data_path_off() {
    assert_eq!(ExpressDataPathConfiguration::Off.serialize(), words(&["xdp", "off"]));
    assert!(matches!(ExpressDataPathConfiguration::default(), ExpressDataPathConfiguration::Off));
}

#[test]
fn express_data_path_pinned() {
    let quiet = ExpressDataPathConfiguration::Pinned {
        variant: ExpressDataPathVariant::Driver,
        path: "/sys/fs/bpf/prog".into(),
        verbose: false,
    };
    assert_eq!(quiet.serialize(), words(&["xdpdrv", "pinned", "/sys/fs/bpf/prog"]));
    let verbose = ExpressDataPathConfiguration::Pinned {
        variant: ExpressDataPathVariant::Generic,
        path: "/sys/fs/bpf/prog".into(),
        verbose: true,
    };
    assert_eq!(
        verbose.serialize(),
        words(&["xdpgeneric", "pinned", "/sys/fs/bpf/prog", "verbose"])
    );
}

#[test]
fn express_data_path_object() {
    let plain = ExpressDataPathConfiguration::Object {
        variant: ExpressDataPathVariant::Default,
        path: "xdp_test.o".into(),
        section_name: None,
        verbose: false,
    };
    assert_eq!(plain.serialize(), words(&["xdp", "object", "xdp_test.o"]));
    let with_section = ExpressDataPathConfiguration::Object {
        variant: ExpressDataPathVariant::Default,
        path: "src/command/test_fixture/xdp_test.o".into(),
        section_name: Some("xdp".into()),
        verbose: false,
    };
    assert_eq!(
        with_section.serialize(),
        words(&["xdp", "object", "src/command/test_fixture/xdp_test.o", "section", "xdp"])
    );
    let verbose = ExpressDataPathConfiguration::Object {
        variant: ExpressDataPathVariant::Offload,
        path: "xdp_test.o".into(),
        section_name: None,
        verbose: true,
    };
    assert_eq!(verbose.serialize(), words(&["xdpoffload", "object", "xdp_test.o", "verbose"]));
    let all = ExpressDataPathConfiguration::Object {
        variant: ExpressDataPathVariant::Offload,
        path: "xdp_test.o".into(),
        section_name: Some("prog".into()),
        verbose: true,
    };
    assert_eq!(
        all.serialize(),
        words(&["xdpoffload", "object", "xdp_test.o", "section", "prog", "verbose"])
    );
}

#[test]
fn link_set_on_a_dummy_device() {
    let configuration = LinkSetConfiguration {
        device: LinkDeviceOrGroup::Device("test2".into()),
        state: Some(LinkStatus::Up),
        link_type: Some("dummy".into()),
        arp: Some(false),
        multicast: Some(true),
        all_multicast: Some(true),
        promiscuous: Some(false),
        protocol_down: None,
        trailers: Some(false),
        transmit_queue_length: Some(1u32),
        new_name: Some("dummy1".into()),
        address: Some("02:00:00:00:01:01".into()),
        broadcast: Some("FF:FF:FF:FF:FF:FF".into()),
        mtu: Some(1400),
        namespace: Some("ip-command-test-link-set-dummy".into()),
        link_network_namespace_id: Some(101u32),
        express_data_path: None,
        master: None,
        vrf_master: None,
        address_generation_mode: Some("eui64".into()),
    };
    assert_eq!(
        args(&configuration),
        Ok(words(&[
            "dev",
            "test2",
            "up",
            "arp",
            "off",
            "multicast",
            "on",
            "allmulticast",
            "on",
            "promisc",
            "off",
            "trailers",
            "off",
            "txqueuelen",
            "1",
            "name",
            "dummy1",
            "address",
            "02:00:00:00:01:01",
            "broadcast",
            "FF:FF:FF:FF:FF:FF",
            "mtu",
            "1400",
            "netns",
            "ip-command-test-link-set-dummy",
            "link-netnsid",
            "101",
            "addrgenmode",
            "eui64",
            "type",
            "dummy",
        ]))
    );
}

#[test]
fn link_set_with_express_data_path_and_master() {
    let configuration = LinkSetConfiguration {
        device: LinkDeviceOrGroup::Device("test3".into()),
        state: Some(LinkStatus::Up),
        protocol_down: Some(true),
        master: Some(MasterSetConfiguration::Enslaved("br0".into())),
        vrf_master: Some("blue".into()),
        express_data_path: Some(ExpressDataPathConfiguration::Object {
            variant: ExpressDataPathVariant::Default,
            path: "src/command/test_fixture/xdp_test.o".into(),
            section_name: Some("xdp".into()),
            verbose: false,
        }),
        ..Default::default()
    };
    assert_eq!(
        args(&configuration),
        Ok(words(&[
            "dev",
            "test3",
            "up",
            "protodown",
            "on",
            "dev",
            "br0",
            "vrf",
            "blue",
            "xdp",
            "object",
            "src/command/test_fixture/xdp_test.o",
            "section",
            "xdp",
        ]))
    );
}

#[test]
fn link_set_by_presence() {
    let configuration = LinkSetConfiguration {
        device: LinkDeviceOrGroup::DeviceGroup(3),
        arp: Some(true),
        multicast: Some(false),
        ..Default::default()
    };
    assert_eq!(
        Serializer::new(BooleanType::Presence).into_args(&configuration),
        Ok(words(&["group", "3", "arp"]))
    );
}

#[test]
fn link_set_default_fails_for_want_of_a_device() {
    assert_eq!(
        args(&LinkSetConfiguration::default()),
        Err(Error::CommandOptionsSerializationError {
            message: "no encoding for the value of device".to_string()
        })
    );
}

#[test]
fn link_show_never_writes_the_state() {
    let configuration = LinkShowConfiguration {
        device: LinkDeviceOrGroup::Device("test1".into()),
        state: Some(LinkStatus::Up),
        master: Some("br0".into()),
        virtual_function_device: Some("blue".into()),
        link_type: Some("dummy".into()),
    };
    assert_eq!(
        args(&configuration),
        Ok(words(&["dev", "test1", "master", "br0", "vrf", "blue", "type", "dummy"]))
    );
}

#[test]
fn link_show_of_one_device() {
    let configuration = LinkShowConfiguration {
        device: LinkDeviceOrGroup::Device("test1".into()),
        ..Default::default()
    };
    assert_eq!(args(&configuration), Ok(words(&["dev", "test1"])));
}

#[test]
fn address_flags_words() {
    assert_eq!(AddressAddConfigurationFlag::HomeAddress.to_string(), "home");
    assert_eq!(AddressAddConfigurationFlag::KernelManagedTemporaryAddress.to_string(), "mngtmpaddr");
    assert_eq!(AddressAddConfigurationFlag::NoDuplicateAddressDetection.to_string(), "nodad");
    assert_eq!(AddressAddConfigurationFlag::NoPrefixRoute.to_string(), "noprefixroute");
    assert_eq!(AddressAddConfigurationFlag::JoinMulticastGroups.to_string(), "autojoin");
    assert_eq!(AddressConfigurationFlag::Dynamic.to_string(), "dynamic");
    assert_eq!(AddressConfigurationFlag::Permanent.to_string(), "permanent");
    assert_eq!(AddressConfigurationFlag::Tentative.to_string(), "tentative");
    assert_eq!(AddressConfigurationFlag::NotTentative.to_string(), "-tentative");
    assert_eq!(AddressConfigurationFlag::Deprecated.to_string(), "deprecated");
    assert_eq!(AddressConfigurationFlag::NotDeprecated.to_string(), "-deprecated");
    assert_eq!(AddressConfigurationFlag::DuplicateAddressDetectionFailed.to_string(), "dadfailed");
    assert_eq!(
        AddressConfigurationFlag::NotDuplicateAddressDetectionFailed.to_string(),
        "-dadfailed"
    );
    assert_eq!(AddressConfigurationFlag::Primary.to_string(), "primary");
    assert_eq!(AddressConfigurationFlag::Secondary.to_string(), "secondary");
    assert_eq!(AddressConfigurationFlag::Temporary.to_string(), "temporary");
}

#[test]
fn unset_flags_stand_for_nothing() {
    assert_eq!(AddressAddConfigurationFlag::Unset.serialize(), Vec::<String>::new());
    assert_eq!(AddressConfigurationFlag::Unset.serialize(), Vec::<String>::new());
    assert_eq!(AddressAddConfigurationFlag::default().serialize(), Vec::<String>::new());
    assert_eq!(AddressConfigurationFlag::default().serialize(), Vec::<String>::new());
    assert_eq!(AddressAddConfigurationFlag::NoPrefixRoute.serialize(), words(&["noprefixroute"]));
    assert_eq!(AddressConfigurationFlag::NotTentative.serialize(), words(&["-tentative"]));
}

#[test]
fn address_add_with_broadcast() {
    let configuration = AddressAddConfiguration {
        local: "172.80.0.1".into(),
        broadcast: Some("172.80.0.255".into()),
        device: "test_addr0".into(),
        ..Default::default()
    };
    assert_eq!(
        args(&configuration),
        Ok(words(&["local", "172.80.0.1", "broadcast", "172.80.0.255", "dev", "test_addr0"]))
    );
}

#[test]
fn address_add_with_every_field() {
    let configuration = AddressAddConfiguration {
        local: "fd00::1".into(),
        peer: Some("fd00::2".into()),
        broadcast: Some("+".into()),
        any_cast: Some("fd00::3".into()),
        label: Some("eth0:1".into()),
        scope: Some("global".into()),
        device: "eth0".into(),
        valid_lifetime: Some("forever".into()),
        preferred_lifetime: Some("3600".into()),
        flags: Some(vec![
            AddressAddConfigurationFlag::HomeAddress,
            AddressAddConfigurationFlag::Unset,
            AddressAddConfigurationFlag::NoDuplicateAddressDetection,
        ]),
    };
    assert_eq!(
        args(&configuration),
        Ok(words(&[
            "local",
            "fd00::1",
            "peer",
            "fd00::2",
            "broadcast",
            "+",
            "anycast",
            "fd00::3",
            "label",
            "eth0:1",
            "scope",
            "global",
            "dev",
            "eth0",
            "valid_lft",
            "forever",
            "preferred_lft",
            "3600",
            "home",
            "nodad",
        ]))
    );
}

#[test]
fn address_add_with_empty_or_unset_flags() {
    let empty = AddressAddConfiguration {
        local: "10.0.0.1".into(),
        device: "eth0".into(),
        flags: Some(vec![]),
        ..Default::default()
    };
    assert_eq!(args(&empty), Ok(words(&["local", "10.0.0.1", "dev", "eth0"])));
    let unset = AddressAddConfiguration {
        local: "10.0.0.1".into(),
        device: "eth0".into(),
        flags: Some(vec![AddressAddConfigurationFlag::Unset]),
        ..Default::default()
    };
    assert_eq!(args(&unset), Ok(words(&["local", "10.0.0.1", "dev", "eth0"])));
}

#[test]
fn address_show_of_a_device() {
    let configuration =
        AddressShowConfiguration { device: "test_addr0".into(), ..Default::default() };
    assert_eq!(args(&configuration), Ok(words(&["dev", "test_addr0"])));
}

#[test]
fn address_show_with_every_field() {
    let configuration = AddressShowConfiguration {
        device: "eth0".into(),
        scope: Some("link".into()),
        to: Some("10.0.0.0/8".into()),
        label: Some("eth*".into()),
        master: Some("br0".into()),
        vrf_master: Some("blue".into()),
        link_type: Some("bridge".into()),
        state: Some(LinkStatus::Up),
        flags: Some(vec![AddressConfigurationFlag::Permanent, AddressConfigurationFlag::Primary]),
    };
    assert_eq!(
        args(&configuration),
        Ok(words(&[
            "dev",
            "eth0",
            "scope",
            "link",
            "to",
            "10.0.0.0/8",
            "label",
            "eth*",
            "master",
            "br0",
            "vrf",
            "blue",
            "type",
            "bridge",
            "up",
            "permanent",
            "primary",
        ]))
    );
}

#[test]
fn address_delete_of_an_address() {
    let configuration = AddressDeleteConfiguration {
        local: "172.80.0.2".into(),
        device: "test_addr1".into(),
        ..Default::default()
    };
    assert_eq!(args(&configuration), Ok(words(&["local", "172.80.0.2", "dev", "test_addr1"])));
}

#[test]
fn address_delete_with_every_field() {
    let configuration = AddressDeleteConfiguration {
        local: "10.0.0.1".into(),
        peer: Some("10.0.0.2".into()),
        broadcast: Some("10.0.0.255".into()),
        any_cast: Some("10.0.0.3".into()),
        label: Some("l".into()),
        scope: Some("host".into()),
        device: "eth0".into(),
        flags: Some(vec![AddressAddConfigurationFlag::KernelManagedTemporaryAddress]),
    };
    assert_eq!(
        args(&configuration),
        Ok(words(&[
            "local",
            "10.0.0.1",
            "peer",
            "10.0.0.2",
            "broadcast",
            "10.0.0.255",
            "anycast",
            "10.0.0.3",
            "label",
            "l",
            "scope",
            "host",
            "dev",
            "eth0",
            "mngtmpaddr",
        ]))
    );
}

#[test]
fn address_flush_default_is_empty() {
    assert_eq!(args(&AddressFlushOrSaveConfiguration::default()), Ok(vec![]));
    assert_eq!(
        Serializer::new(BooleanType::Presence)
            .into_args(&AddressFlushOrSaveConfiguration::default()),
        Ok(vec![])
    );
}

#[test]
fn address_flush_of_a_device() {
    let configuration =
        AddressFlushConfiguration { device: Some("test_addr2".into()), ..Default::default() };
    assert_eq!(args(&configuration), Ok(words(&["dev", "test_addr2"])));
}

#[test]
fn address_save_with_every_field() {
    let configuration = AddressSaveConfiguration {
        device: Some("eth0".into()),
        scope: Some("global".into()),
        metric: Some(256),
        to: Some("10.0.0.0/8".into()),
        flags: Some(vec![
            AddressConfigurationFlag::Unset,
            AddressConfigurationFlag::NotDeprecated,
            AddressConfigurationFlag::Temporary,
        ]),
        label: Some("eth0".into()),
        state: Some(LinkStatus::Down),
    };
    assert_eq!(
        args(&configuration),
        Ok(words(&[
            "dev",
            "eth0",
            "scope",
            "global",
            "metric",
            "256",
            "to",
            "10.0.0.0/8",
            "-deprecated",
            "temporary",
            "label",
            "eth0",
            "down",
        ]))
    );
}

#[test]
fn described_fields_match_what_is_written() {
    let configuration = LinkDeleteConfiguration {
        device: LinkDeviceOrGroup::Device("test1".into()),
        link_type: "dummy".into(),
    };
    let fields = configuration.fields();
    assert_eq!(fields.len(), 2);
    assert_eq!(fields[0].name, "device");
    assert_eq!(fields[1].name, "type");
    assert_eq!(
        Serializer::new(BooleanType::OnOff).fields_into_args(&fields),
        args(&configuration)
    );
}
