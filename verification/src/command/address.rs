//! Protocol addresses on devices: `ip address`.

use crate::client::IpCommand;
use crate::command::link::LinkStatus;
use crate::error::Error;
use crate::process::ProcessRequest;
use crate::serializer::{
    optional_collected_tokens,
    optional_tokens,
    serialized,
    BooleanType,
    Configuration,
    Enumerated,
    Field,
    FieldView,
};
use crate::text::{replace, replaced};
use vstd::prelude::*;
use vstd::string::StringExecFns;

verus! {

/// Add protocol address configuration flags.
#[derive(Clone, Debug)]
pub enum AddressAddConfigurationFlag {
    /// No flag. It stands for nothing on the command line.
    Unset,
    /// Designates this address the "home address" as defined in RFC 6275 (IPv6 only).
    HomeAddress,
    /// Make the kernel manage temporary addresses created from this one as template on behalf of RFC 3041 (IPv6 only).
    KernelManagedTemporaryAddress,
    /// Do not perform Duplicate Address Detection RFC 4862 (IPv6 only).
    NoDuplicateAddressDetection,
    /// Do not automatically create a route for the network prefix of the added address.
    NoPrefixRoute,
    /// Automatically join multicast groups.
    JoinMulticastGroups,
}

impl Default for AddressAddConfigurationFlag {
    fn default() -> (r: Self)
        ensures
            r is Unset,
    {
        AddressAddConfigurationFlag::Unset
    }
}

impl AddressAddConfigurationFlag {
    /// The word of the flag. The flag that is not set has none.
    pub open spec fn keyword(self) -> Option<Seq<char>> {
        match self {
            AddressAddConfigurationFlag::Unset => None,
            AddressAddConfigurationFlag::HomeAddress => Some("home"@),
            AddressAddConfigurationFlag::KernelManagedTemporaryAddress => Some("mngtmpaddr"@),
            AddressAddConfigurationFlag::NoDuplicateAddressDetection => Some("nodad"@),
            AddressAddConfigurationFlag::NoPrefixRoute => Some("noprefixroute"@),
            AddressAddConfigurationFlag::JoinMulticastGroups => Some("autojoin"@),
        }
    }

    /// The word of a flag that is set.
    pub fn to_string(&self) -> (r: String)
        requires
            !(self is Unset),
        ensures
            self.keyword() == Some(r@),
    {
        match self {
            AddressAddConfigurationFlag::HomeAddress => String::from_str("home"),
            AddressAddConfigurationFlag::KernelManagedTemporaryAddress => String::from_str(
                "mngtmpaddr",
            ),
            AddressAddConfigurationFlag::NoDuplicateAddressDetection => String::from_str("nodad"),
            AddressAddConfigurationFlag::NoPrefixRoute => String::from_str("noprefixroute"),
            _ => String::from_str("autojoin"),
        }
    }
}

impl Enumerated for AddressAddConfigurationFlag {
    open spec fn tokens(&self) -> Seq<Seq<char>> {
        match self.keyword() {
            Some(word) => seq![word],
            None => Seq::empty(),
        }
    }

    fn serialize(&self) -> (r: Vec<String>) {
        let mut r: Vec<String> = Vec::new();
        if let AddressAddConfigurationFlag::Unset = self {
        } else {
            r.push(self.to_string());
        }
        assert(r.deep_view() =~= self.tokens());
        r
    }
}

/// Add protocol address configuration.
#[derive(Clone, Debug)]
pub struct AddressAddConfiguration {
    /// The address of the interface.
    pub local: String,
    /// The address of the remote endpoint for pointopoint interfaces.
    pub peer: Option<String>,
    /// The broadcast address on the interface.
    pub broadcast: Option<String>,
    /// The anycast address.
    pub any_cast: Option<String>,
    /// Label for tagging the address.
    pub label: Option<String>,
    /// The scope of the area where this address is valid.
    pub scope: Option<String>,
    /// The name of the device to add the address to.
    pub device: String,
    /// The valid lifetime of this address (seconds or "forever").
    pub valid_lifetime: Option<String>,
    /// The preferred lifetime of this address (seconds or "forever").
    pub preferred_lifetime: Option<String>,
    /// Optional configuration flags.
    pub flags: Option<Vec<AddressAddConfigurationFlag>>,
}

impl Default for AddressAddConfiguration {
    fn default() -> (r: Self)
        ensures
            r.local@ == Seq::<char>::empty(),
            r.peer is None,
            r.broadcast is None,
            r.any_cast is None,
            r.label is None,
            r.scope is None,
            r.device@ == Seq::<char>::empty(),
            r.valid_lifetime is None,
            r.preferred_lifetime is None,
            r.flags is None,
    {
        AddressAddConfiguration {
            local: String::new(),
            peer: None,
            broadcast: None,
            any_cast: None,
            label: None,
            scope: None,
            device: String::new(),
            valid_lifetime: None,
            preferred_lifetime: None,
            flags: None,
        }
    }
}

impl Configuration for AddressAddConfiguration {
    open spec fn spec_fields(&self) -> Seq<FieldView> {
        seq![
            FieldView::text("local"@, self.local@),
            FieldView::optional_text("peer"@, self.peer),
            FieldView::optional_text("broadcast"@, self.broadcast),
            FieldView::optional_text("anycast"@, self.any_cast),
            FieldView::optional_text("label"@, self.label),
            FieldView::optional_text("scope"@, self.scope),
            FieldView::text("dev"@, self.device@),
            FieldView::optional_text("valid_lft"@, self.valid_lifetime),
            FieldView::optional_text("preferred_lft"@, self.preferred_lifetime),
            FieldView::optional_enumerated("flags"@, optional_collected_tokens(self.flags)),
        ]
    }

    fn fields(&self) -> (r: Vec<Field>) {
        let mut r: Vec<Field> = Vec::new();
        r.push(Field::text("local", &self.local));
        r.push(Field::optional_text("peer", &self.peer));
        r.push(Field::optional_text("broadcast", &self.broadcast));
        r.push(Field::optional_text("anycast", &self.any_cast));
        r.push(Field::optional_text("label", &self.label));
        r.push(Field::optional_text("scope", &self.scope));
        r.push(Field::text("dev", &self.device));
        r.push(Field::optional_text("valid_lft", &self.valid_lifetime));
        r.push(Field::optional_text("preferred_lft", &self.preferred_lifetime));
        r.push(Field::optional_flags("flags", &self.flags));
        assert(r.deep_view() =~= self.spec_fields());
        r
    }
}

/// List protocol addresses configuration flags.
#[derive(Clone, Debug)]
pub enum AddressConfigurationFlag {
    /// No flag. It stands for nothing on the command line.
    Unset,
    /// Only list addresses installed due to stateless address configuration (IPv6 only).
    Dynamic,
    /// Only list permanent (not dynamic) addresses (IPv6 only).
    Permanent,
    /// Only list addresses which have not yet passed duplicate address detection (IPv6 only).
    Tentative,
    /// Only list addresses which are not in the process of duplicate address detection currently (IPv6 only).
    NotTentative,
    /// Only list deprecated addresses (IPv6 only).
    Deprecated,
    /// Only list addresses not being deprecated (IPv6 only).
    NotDeprecated,
    /// Only list addresses which have failed duplicate address detection (IPv6 only).
    DuplicateAddressDetectionFailed,
    /// Only list addresses which have not failed duplicate address detection (IPv6 only).
    NotDuplicateAddressDetectionFailed,
    /// List only primary addresses, in IPv6 exclude temporary ones.
    Primary,
    /// List secondary IPv4 addresses only.
    Secondary,
    /// List temporary IPv6 addresses only.
    Temporary,
}

impl Default for AddressConfigurationFlag {
    fn default() -> (r: Self)
        ensures
            r is Unset,
    {
        AddressConfigurationFlag::Unset
    }
}

impl AddressConfigurationFlag {
    /// The word of the flag. The flag that is not set has none.
    pub open spec fn keyword(self) -> Option<Seq<char>> {
        match self {
            AddressConfigurationFlag::Unset => None,
            AddressConfigurationFlag::Dynamic => Some("dynamic"@),
            AddressConfigurationFlag::Permanent => Some("permanent"@),
            AddressConfigurationFlag::Tentative => Some("tentative"@),
            AddressConfigurationFlag::NotTentative => Some("-tentative"@),
            AddressConfigurationFlag::Deprecated => Some("deprecated"@),
            AddressConfigurationFlag::NotDeprecated => Some("-deprecated"@),
            AddressConfigurationFlag::DuplicateAddressDetectionFailed => Some("dadfailed"@),
            AddressConfigurationFlag::NotDuplicateAddressDetectionFailed => Some("-dadfailed"@),
            AddressConfigurationFlag::Primary => Some("primary"@),
            AddressConfigurationFlag::Secondary => Some("secondary"@),
            AddressConfigurationFlag::Temporary => Some("temporary"@),
        }
    }

    /// The word of a flag that is set.
    pub fn to_string(&self) -> (r: String)
        requires
            !(self is Unset),
        ensures
            self.keyword() == Some(r@),
    {
        match self {
            AddressConfigurationFlag::Dynamic => String::from_str("dynamic"),
            AddressConfigurationFlag::Permanent => String::from_str("permanent"),
            AddressConfigurationFlag::Tentative => String::from_str("tentative"),
            AddressConfigurationFlag::NotTentative => String::from_str("-tentative"),
            AddressConfigurationFlag::Deprecated => String::from_str("deprecated"),
            AddressConfigurationFlag::NotDeprecated => String::from_str("-deprecated"),
            AddressConfigurationFlag::DuplicateAddressDetectionFailed => String::from_str(
                "dadfailed",
            ),
            AddressConfigurationFlag::NotDuplicateAddressDetectionFailed => String::from_str(
                "-dadfailed",
            ),
            AddressConfigurationFlag::Primary => String::from_str("primary"),
            AddressConfigurationFlag::Secondary => String::from_str("secondary"),
            _ => String::from_str("temporary"),
        }
    }
}

impl Enumerated for AddressConfigurationFlag {
    open spec fn tokens(&self) -> Seq<Seq<char>> {
        match self.keyword() {
            Some(word) => seq![word],
            None => Seq::empty(),
        }
    }

    fn serialize(&self) -> (r: Vec<String>) {
        let mut r: Vec<String> = Vec::new();
        if let AddressConfigurationFlag::Unset = self {
        } else {
            r.push(self.to_string());
        }
        assert(r.deep_view() =~= self.tokens());
        r
    }
}

/// List protocol addresses configuration.
#[derive(Clone, Debug)]
pub struct AddressShowConfiguration {
    /// The name of the device.
    pub device: String,
    /// Only list addresses with this scope.
    pub scope: Option<String>,
    /// Only list addresses matching this prefix.
    pub to: Option<String>,
    /// Only list addresses with labels matching the pattern.
    pub label: Option<String>,
    /// Only list interfaces enslaved to this master device.
    pub master: Option<String>,
    /// Only list interfaces enslaved to this vrf.
    pub vrf_master: Option<String>,
    /// Only list interfaces of the given type.
    pub link_type: Option<String>,
    /// Only list running interfaces.
    pub state: Option<LinkStatus>,
    /// Optional configuration flags.
    pub flags: Option<Vec<AddressConfigurationFlag>>,
}

impl Default for AddressShowConfiguration {
    fn default() -> (r: Self)
        ensures
            r.device@ == Seq::<char>::empty(),
            r.scope is None,
            r.to is None,
            r.label is None,
            r.master is None,
            r.vrf_master is None,
            r.link_type is None,
            r.state is None,
            r.flags is None,
    {
        AddressShowConfiguration {
            device: String::new(),
            scope: None,
            to: None,
            label: None,
            master: None,
            vrf_master: None,
            link_type: None,
            state: None,
            flags: None,
        }
    }
}

impl Configuration for AddressShowConfiguration {
    open spec fn spec_fields(&self) -> Seq<FieldView> {
        seq![
            FieldView::text("dev"@, self.device@),
            FieldView::optional_text("scope"@, self.scope),
            FieldView::optional_text("to"@, self.to),
            FieldView::optional_text("label"@, self.label),
            FieldView::optional_text("master"@, self.master),
            FieldView::optional_text("vrf"@, self.vrf_master),
            FieldView::optional_text("type"@, self.link_type),
            FieldView::optional_enumerated("state"@, optional_tokens(self.state)),
            FieldView::optional_enumerated("flags"@, optional_collected_tokens(self.flags)),
        ]
    }

    fn fields(&self) -> (r: Vec<Field>) {
        let mut r: Vec<Field> = Vec::new();
        r.push(Field::text("dev", &self.device));
        r.push(Field::optional_text("scope", &self.scope));
        r.push(Field::optional_text("to", &self.to));
        r.push(Field::optional_text("label", &self.label));
        r.push(Field::optional_text("master", &self.master));
        r.push(Field::optional_text("vrf", &self.vrf_master));
        r.push(Field::optional_text("type", &self.link_type));
        r.push(Field::optional_enumerated("state", &self.state));
        r.push(Field::optional_flags("flags", &self.flags));
        assert(r.deep_view() =~= self.spec_fields());
        r
    }
}

/// Delete protocol address configuration.
#[derive(Clone, Debug)]
pub struct AddressDeleteConfiguration {
    /// The address of the interface.
    pub local: String,
    /// The address of the remote endpoint for pointopoint interfaces.
    pub peer: Option<String>,
    /// The broadcast address on the interface.
    pub broadcast: Option<String>,
    /// The anycast address.
    pub any_cast: Option<String>,
    /// Label for tagging the address.
    pub label: Option<String>,
    /// The scope of the area where this address is valid.
    pub scope: Option<String>,
    /// The name of the device.
    pub device: String,
    /// Optional configuration flags (only KernelManagedTemporaryAddress supported).
    pub flags: Option<Vec<AddressAddConfigurationFlag>>,
}

impl Default for AddressDeleteConfiguration {
    fn default() -> (r: Self)
        ensures
            r.local@ == Seq::<char>::empty(),
            r.peer is None,
            r.broadcast is None,
            r.any_cast is None,
            r.label is None,
            r.scope is None,
            r.device@ == Seq::<char>::empty(),
            r.flags is None,
    {
        AddressDeleteConfiguration {
            local: String::new(),
            peer: None,
            broadcast: None,
            any_cast: None,
            label: None,
            scope: None,
            device: String::new(),
            flags: None,
        }
    }
}

impl Configuration for AddressDeleteConfiguration {
    open spec fn spec_fields(&self) -> Seq<FieldView> {
        seq![
            FieldView::text("local"@, self.local@),
            FieldView::optional_text("peer"@, self.peer),
            FieldView::optional_text("broadcast"@, self.broadcast),
            FieldView::optional_text("anycast"@, self.any_cast),
            FieldView::optional_text("label"@, self.label),
            FieldView::optional_text("scope"@, self.scope),
            FieldView::text("dev"@, self.device@),
            FieldView::optional_enumerated("flags"@, optional_collected_tokens(self.flags)),
        ]
    }

    fn fields(&self) -> (r: Vec<Field>) {
        let mut r: Vec<Field> = Vec::new();
        r.push(Field::text("local", &self.local));
        r.push(Field::optional_text("peer", &self.peer));
        r.push(Field::optional_text("broadcast", &self.broadcast));
        r.push(Field::optional_text("anycast", &self.any_cast));
        r.push(Field::optional_text("label", &self.label));
        r.push(Field::optional_text("scope", &self.scope));
        r.push(Field::text("dev", &self.device));
        r.push(Field::optional_flags("flags", &self.flags));
        assert(r.deep_view() =~= self.spec_fields());
        r
    }
}

/// Flush/save protocol address configuration.
#[derive(Clone, Debug)]
pub struct AddressFlushOrSaveConfiguration {
    /// The name of the device.
    pub device: Option<String>,
    /// Only match addresses with this scope.
    pub scope: Option<String>,
    /// Only match addresses with this prefix route priority.
    pub metric: Option<u32>,
    /// Only match addresses matching this prefix.
    pub to: Option<String>,
    /// Optional configuration flags.
    pub flags: Option<Vec<AddressConfigurationFlag>>,
    /// Only match addresses with labels matching the pattern.
    pub label: Option<String>,
    /// Only match running interfaces.
    pub state: Option<LinkStatus>,
}

impl Default for AddressFlushOrSaveConfiguration {
    fn default() -> (r: Self)
        ensures
            r.device is None,
            r.scope is None,
            r.metric is None,
            r.to is None,
            r.flags is None,
            r.label is None,
            r.state is None,
    {
        AddressFlushOrSaveConfiguration {
            device: None,
            scope: None,
            metric: None,
            to: None,
            flags: None,
            label: None,
            state: None,
        }
    }
}

impl Configuration for AddressFlushOrSaveConfiguration {
    open spec fn spec_fields(&self) -> Seq<FieldView> {
        seq![
            FieldView::optional_text("dev"@, self.device),
            FieldView::optional_text("scope"@, self.scope),
            FieldView::optional_number("metric"@, self.metric),
            FieldView::optional_text("to"@, self.to),
            FieldView::optional_enumerated("flags"@, optional_collected_tokens(self.flags)),
            FieldView::optional_text("label"@, self.label),
            FieldView::optional_enumerated("state"@, optional_tokens(self.state)),
        ]
    }

    fn fields(&self) -> (r: Vec<Field>) {
        let mut r: Vec<Field> = Vec::new();
        r.push(Field::optional_text("dev", &self.device));
        r.push(Field::optional_text("scope", &self.scope));
        r.push(Field::optional_number("metric", self.metric));
        r.push(Field::optional_text("to", &self.to));
        r.push(Field::optional_flags("flags", &self.flags));
        r.push(Field::optional_text("label", &self.label));
        r.push(Field::optional_enumerated("state", &self.state));
        assert(r.deep_view() =~= self.spec_fields());
        r
    }
}

/// The configuration of a flush of protocol addresses.
pub type AddressFlushConfiguration = AddressFlushOrSaveConfiguration;

/// The configuration of a save of protocol addresses.
pub type AddressSaveConfiguration = AddressFlushOrSaveConfiguration;

/// The returned address information structure.
#[derive(Debug, Clone)]
pub struct AddressInfo {
    pub family: Option<String>,
    pub local: Option<String>,
    pub prefix_length: Option<u32>,
    pub broadcast: Option<String>,
    pub anycast: Option<String>,
    pub scope: Option<String>,
    pub dynamic: Option<bool>,
    pub no_prefix_route: Option<bool>,
    pub label: Option<String>,
    pub valid_life_time: Option<u32>,
    pub preferred_life_time: Option<u32>,
}

/// The returned address structure.
#[derive(Debug, Clone)]
pub struct Address {
    pub interface_index: u32,
    pub name: String,
    pub flags: Vec<String>,
    pub mtu: u32,
    pub queueing_discipline: String,
    pub state: String,
    pub group: Option<String>,
    pub transmit_queue_length: Option<u32>,
    pub link_type: Option<String>,
    pub address: Option<String>,
    pub broadcast: Option<String>,
    pub address_info: Option<Vec<AddressInfo>>,
}

/// The `ip address` commands of a client.
#[derive(Clone, Debug)]
pub struct IpAddressCommand<'l> {
    pub ip_command: &'l IpCommand,
}

/// The report of `ip address show` without the empty objects that the command leaves
/// in its lists: each `{},` is taken out, and then each `,{}`.
pub open spec fn without_empty_objects(output: Seq<char>) -> Seq<char> {
    replaced(replaced(output, "{},"@, ""@), ",{}"@, ""@)
}

impl<'l> IpAddressCommand<'l> {
    /// The `ip address` commands of the client.
    pub fn new(ip_command: &'l IpCommand) -> (r: Self)
        ensures
            r.ip_command == ip_command,
    {
        Self { ip_command }
    }

    /// Add new protocol address.
    pub fn add(&self, configuration: AddressAddConfiguration) -> (r: Result<ProcessRequest, Error>)
        ensures
            self.ip_command.configured_as(
                r,
                seq!["address"@, "add"@],
                serialized(BooleanType::OnOff, configuration.spec_fields()),
                false,
            ),
    {
        self.ip_command.configured("address", "add", Some(&configuration))
    }

    /// Modify the flags on an existing protocol address.
    pub fn change(&self, configuration: AddressAddConfiguration) -> (r: Result<ProcessRequest, Error>)
        ensures
            self.ip_command.configured_as(
                r,
                seq!["address"@, "change"@],
                serialized(BooleanType::OnOff, configuration.spec_fields()),
                false,
            ),
    {
        self.ip_command.configured("address", "change", Some(&configuration))
    }

    /// Add new or modify existing protocol address.
    pub fn replace(&self, configuration: AddressAddConfiguration) -> (r: Result<ProcessRequest, Error>)
        ensures
            self.ip_command.configured_as(
                r,
                seq!["address"@, "replace"@],
                serialized(BooleanType::OnOff, configuration.spec_fields()),
                false,
            ),
    {
        self.ip_command.configured("address", "replace", Some(&configuration))
    }

    /// Delete protocol address.
    pub fn delete(&self, configuration: AddressDeleteConfiguration) -> (r: Result<ProcessRequest, Error>)
        ensures
            self.ip_command.configured_as(
                r,
                seq!["address"@, "del"@],
                serialized(BooleanType::OnOff, configuration.spec_fields()),
                false,
            ),
    {
        self.ip_command.configured("address", "del", Some(&configuration))
    }

    /// Look at protocol addresses.
    pub fn show(&self, configuration: Option<AddressShowConfiguration>) -> (r: Result<
        ProcessRequest,
        Error,
    >)
        ensures
            self.ip_command.configured_as(
                r,
                seq!["address"@, "show"@],
                match configuration {
                    Some(value) => serialized(BooleanType::OnOff, value.spec_fields()),
                    None => Ok(Seq::empty()),
                },
                false,
            ),
    {
        self.ip_command.configured("address", "show", configuration.as_ref())
    }

    /// What is to be read as JSON of the report of `show`: the report without the
    /// empty objects that the command leaves in its lists.
    pub fn show_output(output: &str) -> (r: String)
        ensures
            r@ == without_empty_objects(output@),
    {
        proof {
            reveal_strlit("{},");
            reveal_strlit(",{}");
        }
        let output = replace(output, "{},", "");
        replace(output.as_str(), ",{}", "")
    }

    /// Flush protocol addresses.
    pub fn flush(&self, configuration: Option<AddressFlushConfiguration>) -> (r: Result<
        ProcessRequest,
        Error,
    >)
        ensures
            self.ip_command.configured_as(
                r,
                seq!["address"@, "flush"@],
                match configuration {
                    Some(value) => serialized(BooleanType::OnOff, value.spec_fields()),
                    None => Ok(Seq::empty()),
                },
                false,
            ),
    {
        self.ip_command.configured("address", "flush", configuration.as_ref())
    }

    /// Save the protocol address raw configuration. The process writes it to its standard output.
    pub fn save(&self, configuration: Option<AddressSaveConfiguration>) -> (r: Result<
        ProcessRequest,
        Error,
    >)
        ensures
            self.ip_command.configured_as(
                r,
                seq!["address"@, "save"@],
                match configuration {
                    Some(value) => serialized(BooleanType::OnOff, value.spec_fields()),
                    None => Ok(Seq::empty()),
                },
                false,
            ),
    {
        self.ip_command.configured("address", "save", configuration.as_ref())
    }

    /// Restore the protocol address from a raw configuration. The process reads it
    /// from its standard input.
    pub fn restore(&self) -> (r: Result<ProcessRequest, Error>)
        ensures
            r matches Ok(request) && self.ip_command.asks(
                request,
                seq!["address"@, "restore"@],
                false,
            ),
    {
        let mut args: Vec<String> = Vec::new();
        args.push(String::from_str("address"));
        args.push(String::from_str("restore"));
        let all = args.as_slice();
        assert(all.deep_view() =~= seq!["address"@, "restore"@]);
        self.ip_command.command(all, false)
    }
}

} // verus!
