//! Network devices: `ip link`.

use crate::client::IpCommand;
use crate::error::Error;
use crate::process::ProcessRequest;
use crate::render::{decimal, number_option, text_option};
use crate::serializer::{
    optional_tokens,
    serialized,
    BooleanType,
    Configuration,
    Enumerated,
    Field,
    FieldView,
};
use vstd::prelude::*;
use vstd::string::StringExecFns;

verus! {

/// Virtual link add device configuration.
#[derive(Clone, Debug)]
pub struct LinkAddConfiguration {
    /// Name of the device.
    pub name: String,
    /// The physical device to operate on.
    pub device: Option<String>,
    /// Transmit queue length of the device.
    pub transmit_queue_length: Option<u32>,
    /// Station address of the device.
    pub address: Option<String>,
    /// Link layer broadcast address.
    pub broadcast: Option<String>,
    /// Maximum transmission unit for the device.
    pub mtu: Option<u32>,
    /// Desired index of the device.
    pub index: Option<u32>,
    /// Number of transmit queues for device.
    pub number_transmit_queues: Option<u32>,
    /// Number of receive queues for device.
    pub number_receive_queues: Option<u32>,
    /// Maximum size of a Generic Segment Offload packet the device should accept.
    pub gso_maximum_size: Option<u32>,
    /// Maximum number of a Generic Segment Offload segments the device should accept.
    pub gso_maximum_segments: Option<u32>,
    /// Type of the device.
    pub link_type: String,
}

impl Default for LinkAddConfiguration {
    fn default() -> (r: Self)
        ensures
            r.name@ == Seq::<char>::empty(),
            r.device is None,
            r.transmit_queue_length is None,
            r.address is None,
            r.broadcast is None,
            r.mtu is None,
            r.index is None,
            r.number_transmit_queues is None,
            r.number_receive_queues is None,
            r.gso_maximum_size is None,
            r.gso_maximum_segments is None,
            r.link_type@ == Seq::<char>::empty(),
    {
        LinkAddConfiguration {
            name: String::new(),
            device: None,
            transmit_queue_length: None,
            address: None,
            broadcast: None,
            mtu: None,
            index: None,
            number_transmit_queues: None,
            number_receive_queues: None,
            gso_maximum_size: None,
            gso_maximum_segments: None,
            link_type: String::new(),
        }
    }
}

impl Configuration for LinkAddConfiguration {
    open spec fn spec_fields(&self) -> Seq<FieldView> {
        seq![
            FieldView::text("name"@, self.name@),
            FieldView::optional_text("link"@, self.device),
            FieldView::optional_number("txqueuelen"@, self.transmit_queue_length),
            FieldView::optional_text("address"@, self.address),
            FieldView::optional_text("broadcast"@, self.broadcast),
            FieldView::optional_number("mtu"@, self.mtu),
            FieldView::optional_number("index"@, self.index),
            FieldView::optional_number("numtxqueues"@, self.number_transmit_queues),
            FieldView::optional_number("numrxqueues"@, self.number_receive_queues),
            FieldView::optional_number("gso_max_size"@, self.gso_maximum_size),
            FieldView::optional_number("gso_max_segs"@, self.gso_maximum_segments),
            FieldView::text("type"@, self.link_type@),
        ]
    }

    fn fields(&self) -> (r: Vec<Field>) {
        let mut r: Vec<Field> = Vec::new();
        r.push(Field::text("name", &self.name));
        r.push(Field::optional_text("link", &self.device));
        r.push(Field::optional_number("txqueuelen", self.transmit_queue_length));
        r.push(Field::optional_text("address", &self.address));
        r.push(Field::optional_text("broadcast", &self.broadcast));
        r.push(Field::optional_number("mtu", self.mtu));
        r.push(Field::optional_number("index", self.index));
        r.push(Field::optional_number("numtxqueues", self.number_transmit_queues));
        r.push(Field::optional_number("numrxqueues", self.number_receive_queues));
        r.push(Field::optional_number("gso_max_size", self.gso_maximum_size));
        r.push(Field::optional_number("gso_max_segs", self.gso_maximum_segments));
        r.push(Field::text("type", &self.link_type));
        assert(r.deep_view() =~= self.spec_fields());
        r
    }
}

/// The device, or the group of devices, that a command works on.
#[derive(Clone, Debug)]
pub enum LinkDeviceOrGroup {
    /// One device, by name.
    Device(String),
    /// All devices of a group, by the group's number.
    DeviceGroup(u32),
    /// Nothing chosen yet. A command cannot be written with it.
    Unset,
}

impl Default for LinkDeviceOrGroup {
    fn default() -> (r: Self)
        ensures
            r is Unset,
    {
        LinkDeviceOrGroup::Unset
    }
}

impl LinkDeviceOrGroup {
    /// The tokens of the choice: a keyword and the name or number. Where nothing is
    /// chosen there is no encoding.
    pub open spec fn encoding(self) -> Option<Seq<Seq<char>>> {
        match self {
            LinkDeviceOrGroup::Device(device) => Some(seq!["dev"@, device@]),
            LinkDeviceOrGroup::DeviceGroup(group) => Some(seq!["group"@, decimal(group as nat)]),
            LinkDeviceOrGroup::Unset => None,
        }
    }

    /// The message of the refusal to write a choice that was not made.
    pub open spec fn refusal() -> Seq<char> {
        "neither a device nor a group is chosen"@
    }

    /// Writes the tokens of the choice, and refuses where nothing is chosen.
    pub fn serialize(&self) -> (r: Result<Vec<String>, Error>)
        ensures
            match r {
                Ok(tokens) => self.encoding() == Some(tokens.deep_view()),
                Err(Error::CommandOptionsSerializationError { message }) => self.encoding() is None
                    && message@ == Self::refusal(),
                Err(_) => false,
            },
    {
        match self {
            LinkDeviceOrGroup::Device(device) => Ok(text_option("dev", device.as_str()).unwrap()),
            LinkDeviceOrGroup::DeviceGroup(group) => Ok(
                number_option("group", *group as u64).unwrap(),
            ),
            LinkDeviceOrGroup::Unset => Err(
                Error::CommandOptionsSerializationError {
                    message: String::from_str("neither a device nor a group is chosen"),
                },
            ),
        }
    }
}

/// Virtual link delete device configuration.
#[derive(Clone, Debug)]
pub struct LinkDeleteConfiguration {
    /// The device or group to delete.
    pub device: LinkDeviceOrGroup,
    /// Type of the device.
    pub link_type: String,
}

impl Default for LinkDeleteConfiguration {
    fn default() -> (r: Self)
        ensures
            r.device is Unset,
            r.link_type@ == Seq::<char>::empty(),
    {
        LinkDeleteConfiguration { device: LinkDeviceOrGroup::Unset, link_type: String::new() }
    }
}

impl Configuration for LinkDeleteConfiguration {
    open spec fn spec_fields(&self) -> Seq<FieldView> {
        seq![
            FieldView::encoded("device"@, self.device.encoding()),
            FieldView::text("type"@, self.link_type@),
        ]
    }

    fn fields(&self) -> (r: Vec<Field>) {
        let mut r: Vec<Field> = Vec::new();
        r.push(Field::encoded("device", self.device.serialize()));
        r.push(Field::text("type", &self.link_type));
        assert(r.deep_view() =~= self.spec_fields());
        r
    }
}

/// Whether a device is up.
#[derive(Clone, Debug)]
pub enum LinkStatus {
    Up,
    Down,
}

impl Enumerated for LinkStatus {
    open spec fn tokens(&self) -> Seq<Seq<char>> {
        match self {
            LinkStatus::Up => seq!["up"@],
            LinkStatus::Down => seq!["down"@],
        }
    }

    fn serialize(&self) -> (r: Vec<String>) {
        let mut r: Vec<String> = Vec::new();
        match self {
            LinkStatus::Up => {
                r.push(String::from_str("up"));
            },
            LinkStatus::Down => {
                r.push(String::from_str("down"));
            },
        }
        assert(r.deep_view() =~= self.tokens());
        r
    }
}

/// Set or unset the master device of a device.
#[derive(Clone, Debug)]
pub enum MasterSetConfiguration {
    /// Set master device of the device.
    Enslaved(String),
    /// Unset master device of the device.
    Release,
}

impl Enumerated for MasterSetConfiguration {
    open spec fn tokens(&self) -> Seq<Seq<char>> {
        match self {
            MasterSetConfiguration::Enslaved(device) => seq!["dev"@, device@],
            MasterSetConfiguration::Release => seq!["nomaster"@],
        }
    }

    fn serialize(&self) -> (r: Vec<String>) {
        match self {
            MasterSetConfiguration::Enslaved(device) => text_option(
                "dev",
                device.as_str(),
            ).unwrap(),
            MasterSetConfiguration::Release => {
                let mut r: Vec<String> = Vec::new();
                r.push(String::from_str("nomaster"));
                assert(r.deep_view() =~= self.tokens());
                r
            },
        }
    }
}

/// The mode in which a program is attached to the express data path of a device.
#[derive(Clone, Debug)]
pub enum ExpressDataPathVariant {
    /// Kernel gets to choose the best available mode.
    Default,
    /// Use the slow generic fallback mode.
    Generic,
    /// Use a fast driver based mode, if not available then error.
    Driver,
    /// Hardware offload mode.
    Offload,
}

impl Default for ExpressDataPathVariant {
    fn default() -> (r: Self)
        ensures
            r is Default,
    {
        ExpressDataPathVariant::Default
    }
}

impl ExpressDataPathVariant {
    /// The keyword of the mode.
    pub open spec fn keyword(self) -> Seq<char> {
        match self {
            ExpressDataPathVariant::Default => "xdp"@,
            ExpressDataPathVariant::Generic => "xdpgeneric"@,
            ExpressDataPathVariant::Driver => "xdpdrv"@,
            ExpressDataPathVariant::Offload => "xdpoffload"@,
        }
    }

    /// The keyword of the mode.
    pub fn to_string(&self) -> (r: String)
        ensures
            r@ == self.keyword(),
    {
        match self {
            ExpressDataPathVariant::Default => String::from_str("xdp"),
            ExpressDataPathVariant::Generic => String::from_str("xdpgeneric"),
            ExpressDataPathVariant::Driver => String::from_str("xdpdrv"),
            ExpressDataPathVariant::Offload => String::from_str("xdpoffload"),
        }
    }
}

/// Set, or unset, a program to run on every packet at driver level.
#[derive(Debug, Clone)]
pub enum ExpressDataPathConfiguration {
    /// Detach whatever program is attached.
    Off,
    /// Attach a program that is pinned in the BPF file system.
    Pinned { variant: ExpressDataPathVariant, path: String, verbose: bool },
    /// Attach a program from an object file, by default from its section `prog`.
    Object {
        variant: ExpressDataPathVariant,
        path: String,
        section_name: Option<String>,
        verbose: bool,
    },
}

impl Default for ExpressDataPathConfiguration {
    fn default() -> (r: Self)
        ensures
            r is Off,
    {
        ExpressDataPathConfiguration::Off
    }
}

/// The token that asks for a verbose report, where one is asked for.
pub open spec fn verbose_tokens(verbose: bool) -> Seq<Seq<char>> {
    if verbose {
        seq!["verbose"@]
    } else {
        Seq::empty()
    }
}

/// The tokens that name the section of an object file, where one is named.
pub open spec fn section_tokens(section_name: Option<String>) -> Seq<Seq<char>> {
    match section_name {
        Some(name) => seq!["section"@, name@],
        None => Seq::empty(),
    }
}

impl Enumerated for ExpressDataPathConfiguration {
    open spec fn tokens(&self) -> Seq<Seq<char>> {
        match self {
            ExpressDataPathConfiguration::Off => seq!["xdp"@, "off"@],
            ExpressDataPathConfiguration::Pinned { variant, path, verbose } => seq![
                variant.keyword(),
                "pinned"@,
                path@,
            ] + verbose_tokens(*verbose),
            ExpressDataPathConfiguration::Object { variant, path, section_name, verbose } => seq![
                variant.keyword(),
                "object"@,
                path@,
            ] + section_tokens(*section_name) + verbose_tokens(*verbose),
        }
    }

    fn serialize(&self) -> (r: Vec<String>) {
        let mut r: Vec<String> = Vec::new();
        match self {
            ExpressDataPathConfiguration::Object { variant, path, section_name, verbose } => {
                r.push(variant.to_string());
                r.push(String::from_str("object"));
                r.push(path.clone());
                if let Some(section_name) = section_name {
                    r.push(String::from_str("section"));
                    r.push(section_name.clone());
                }
                if *verbose {
                    r.push(String::from_str("verbose"));
                }
            },
            ExpressDataPathConfiguration::Pinned { variant, path, verbose } => {
                r.push(variant.to_string());
                r.push(String::from_str("pinned"));
                r.push(path.clone());
                if *verbose {
                    r.push(String::from_str("verbose"));
                }
            },
            ExpressDataPathConfiguration::Off => {
                r.push(String::from_str("xdp"));
                r.push(String::from_str("off"));
            },
        }
        assert(r.deep_view() =~= self.tokens());
        r
    }
}

/// Change device attributes configuration.
#[derive(Debug, Clone)]
pub struct LinkSetConfiguration {
    /// The device or group to operate on.
    pub device: LinkDeviceOrGroup,
    /// Change the state of the device.
    pub state: Option<LinkStatus>,
    /// Enable or disable the use of the Address Resolution Protocol.
    pub arp: Option<bool>,
    /// Enable or disable support for multicast packets.
    pub multicast: Option<bool>,
    /// Enable or disable the reception of all hardware multicast packets.
    pub all_multicast: Option<bool>,
    /// Enable or disable promiscuous listening mode.
    pub promiscuous: Option<bool>,
    /// Indicate that a protocol error has been detected.
    pub protocol_down: Option<bool>,
    /// Enable or disable the use of trailer encapsulations.
    pub trailers: Option<bool>,
    /// Transmit queue length of the device.
    pub transmit_queue_length: Option<u32>,
    /// Change the name of the device.
    pub new_name: Option<String>,
    /// Station address of the device.
    pub address: Option<String>,
    /// Link layer broadcast address.
    pub broadcast: Option<String>,
    /// Maximum transmission unit for the device.
    pub mtu: Option<u32>,
    /// Move the device to the supplied network namespace or pid.
    pub namespace: Option<String>,
    /// Set peer netnsid for a cross-netns interface.
    pub link_network_namespace_id: Option<u32>,
    /// Set / unset the master device of the device.
    pub master: Option<MasterSetConfiguration>,
    /// Enslave to virtual routing and forwarding master.
    pub vrf_master: Option<String>,
    /// IPv6 address generation mode.
    pub address_generation_mode: Option<String>,
    /// Set (or unset) a BPF program to run on every packet at driver level.
    pub express_data_path: Option<ExpressDataPathConfiguration>,
    /// Type of the device.
    pub link_type: Option<String>,
}

impl Default for LinkSetConfiguration {
    fn default() -> (r: Self)
        ensures
            r.device is Unset,
            r.state is None,
            r.arp is None,
            r.multicast is None,
            r.all_multicast is None,
            r.promiscuous is None,
            r.protocol_down is None,
            r.trailers is None,
            r.transmit_queue_length is None,
            r.new_name is None,
            r.address is None,
            r.broadcast is None,
            r.mtu is None,
            r.namespace is None,
            r.link_network_namespace_id is None,
            r.master is None,
            r.vrf_master is None,
            r.address_generation_mode is None,
            r.express_data_path is None,
            r.link_type is None,
    {
        LinkSetConfiguration {
            device: LinkDeviceOrGroup::Unset,
            state: None,
            arp: None,
            multicast: None,
            all_multicast: None,
            promiscuous: None,
            protocol_down: None,
            trailers: None,
            transmit_queue_length: None,
            new_name: None,
            address: None,
            broadcast: None,
            mtu: None,
            namespace: None,
            link_network_namespace_id: None,
            master: None,
            vrf_master: None,
            address_generation_mode: None,
            express_data_path: None,
            link_type: None,
        }
    }
}

impl Configuration for LinkSetConfiguration {
    open spec fn spec_fields(&self) -> Seq<FieldView> {
        seq![
            FieldView::encoded("device"@, self.device.encoding()),
            FieldView::optional_enumerated("state"@, optional_tokens(self.state)),
            FieldView::optional_flag("arp"@, self.arp),
            FieldView::optional_flag("multicast"@, self.multicast),
            FieldView::optional_flag("allmulticast"@, self.all_multicast),
            FieldView::optional_flag("promisc"@, self.promiscuous),
            FieldView::optional_flag("protodown"@, self.protocol_down),
            FieldView::optional_flag("trailers"@, self.trailers),
            FieldView::optional_number("txqueuelen"@, self.transmit_queue_length),
            FieldView::optional_text("name"@, self.new_name),
            FieldView::optional_text("address"@, self.address),
            FieldView::optional_text("broadcast"@, self.broadcast),
            FieldView::optional_number("mtu"@, self.mtu),
            FieldView::optional_text("netns"@, self.namespace),
            FieldView::optional_number("link-netnsid"@, self.link_network_namespace_id),
            FieldView::optional_enumerated("master"@, optional_tokens(self.master)),
            FieldView::optional_text("vrf"@, self.vrf_master),
            FieldView::optional_text("addrgenmode"@, self.address_generation_mode),
            FieldView::optional_enumerated(
                "express_data_path"@,
                optional_tokens(self.express_data_path),
            ),
            FieldView::optional_text("type"@, self.link_type),
        ]
    }

    fn fields(&self) -> (r: Vec<Field>) {
        let mut r: Vec<Field> = Vec::new();
        r.push(Field::encoded("device", self.device.serialize()));
        r.push(Field::optional_enumerated("state", &self.state));
        r.push(Field::optional_flag("arp", self.arp));
        r.push(Field::optional_flag("multicast", self.multicast));
        r.push(Field::optional_flag("allmulticast", self.all_multicast));
        r.push(Field::optional_flag("promisc", self.promiscuous));
        r.push(Field::optional_flag("protodown", self.protocol_down));
        r.push(Field::optional_flag("trailers", self.trailers));
        r.push(Field::optional_number("txqueuelen", self.transmit_queue_length));
        r.push(Field::optional_text("name", &self.new_name));
        r.push(Field::optional_text("address", &self.address));
        r.push(Field::optional_text("broadcast", &self.broadcast));
        r.push(Field::optional_number("mtu", self.mtu));
        r.push(Field::optional_text("netns", &self.namespace));
        r.push(Field::optional_number("link-netnsid", self.link_network_namespace_id));
        r.push(Field::optional_enumerated("master", &self.master));
        r.push(Field::optional_text("vrf", &self.vrf_master));
        r.push(Field::optional_text("addrgenmode", &self.address_generation_mode));
        r.push(Field::optional_enumerated("express_data_path", &self.express_data_path));
        r.push(Field::optional_text("type", &self.link_type));
        assert(r.deep_view() =~= self.spec_fields());
        r
    }
}

/// Display device attributes configuration.
#[derive(Clone, Debug)]
pub struct LinkShowConfiguration {
    /// The network device to show.
    pub device: LinkDeviceOrGroup,
    /// Only display running interfaces. Kept for the caller; never written.
    pub state: Option<LinkStatus>,
    /// Master device which enslaves devices to show.
    pub master: Option<String>,
    /// The VRF which enslaves devices to show.
    pub virtual_function_device: Option<String>,
    /// The type of devices to show.
    pub link_type: Option<String>,
}

impl Default for LinkShowConfiguration {
    fn default() -> (r: Self)
        ensures
            r.device is Unset,
            r.state is None,
            r.master is None,
            r.virtual_function_device is None,
            r.link_type is None,
    {
        LinkShowConfiguration {
            device: LinkDeviceOrGroup::Unset,
            state: None,
            master: None,
            virtual_function_device: None,
            link_type: None,
        }
    }
}

impl Configuration for LinkShowConfiguration {
    open spec fn spec_fields(&self) -> Seq<FieldView> {
        seq![
            FieldView::encoded("device"@, self.device.encoding()),
            FieldView::optional_enumerated("state"@, optional_tokens(self.state)).skipped(),
            FieldView::optional_text("master"@, self.master),
            FieldView::optional_text("vrf"@, self.virtual_function_device),
            FieldView::optional_text("type"@, self.link_type),
        ]
    }

    fn fields(&self) -> (r: Vec<Field>) {
        let mut r: Vec<Field> = Vec::new();
        r.push(Field::encoded("device", self.device.serialize()));
        r.push(Field::optional_enumerated("state", &self.state).skipped());
        r.push(Field::optional_text("master", &self.master));
        r.push(Field::optional_text("vrf", &self.virtual_function_device));
        r.push(Field::optional_text("type", &self.link_type));
        assert(r.deep_view() =~= self.spec_fields());
        r
    }
}

/// The state of the express data path of a device, as the command reports it.
#[derive(Debug, Clone)]
pub struct ExpressDataPathProgram {
    pub id: u32,
}

/// The express data path of a device, as the command reports it.
#[derive(Debug, Clone)]
pub struct ExpressDataPath {
    pub mode: u32,
    pub program: Option<ExpressDataPathProgram>,
}

/// A network device, as the command reports it.
#[derive(Debug, Clone)]
pub struct Link {
    pub interface_index: u32,
    pub name: String,
    pub flags: Vec<String>,
    pub mtu: u32,
    pub queueing_discipline: String,
    pub state: String,
    pub link_mode: Option<String>,
    pub group: Option<String>,
    pub transmit_queue_length: Option<u32>,
    pub link_type: Option<String>,
    pub address: Option<String>,
    pub broadcast: Option<String>,
    pub express_data_path: Option<ExpressDataPath>,
}

/// The `ip link` commands of a client.
#[derive(Clone, Debug)]
pub struct IpLinkCommand<'l> {
    pub ip_command: &'l IpCommand,
}

impl<'l> IpLinkCommand<'l> {
    /// The `ip link` commands of the client.
    pub fn new(ip_command: &'l IpCommand) -> (r: Self)
        ensures
            r.ip_command == ip_command,
    {
        Self { ip_command }
    }

    /// Add virtual link.
    pub fn add(&self, configuration: LinkAddConfiguration) -> (r: Result<ProcessRequest, Error>)
        ensures
            self.ip_command.configured_as(
                r,
                seq!["link"@, "add"@],
                serialized(BooleanType::OnOff, configuration.spec_fields()),
                false,
            ),
    {
        self.ip_command.configured("link", "add", Some(&configuration))
    }

    /// Delete virtual link.
    pub fn delete(&self, configuration: LinkDeleteConfiguration) -> (r: Result<
        ProcessRequest,
        Error,
    >)
        ensures
            self.ip_command.configured_as(
                r,
                seq!["link"@, "delete"@],
                serialized(BooleanType::OnOff, configuration.spec_fields()),
                false,
            ),
    {
        self.ip_command.configured("link", "delete", Some(&configuration))
    }

    /// Change device attributes.
    pub fn set(&self, configuration: LinkSetConfiguration) -> (r: Result<ProcessRequest, Error>)
        ensures
            self.ip_command.configured_as(
                r,
                seq!["link"@, "set"@],
                serialized(BooleanType::OnOff, configuration.spec_fields()),
                false,
            ),
    {
        self.ip_command.configured("link", "set", Some(&configuration))
    }

    /// Display device attributes: of the devices that the configuration selects, or of
    /// all devices where none is given.
    pub fn show(&self, configuration: Option<LinkShowConfiguration>) -> (r: Result<
        ProcessRequest,
        Error,
    >)
        ensures
            self.ip_command.configured_as(
                r,
                seq!["link"@, "show"@],
                match configuration {
                    Some(value) => serialized(BooleanType::OnOff, value.spec_fields()),
                    None => Ok(Seq::empty()),
                },
                false,
            ),
    {
        self.ip_command.configured("link", "show", configuration.as_ref())
    }
}

} // verus!
