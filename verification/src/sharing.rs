//! Host sharing: how an observation of the host's sharing profile is
//! explained, and how profile ownership is decided.

use vstd::prelude::*;
use crate::model::{
    status_guided, status_is, AuthorizationState, HostSharingObservation, OperationFailure, ProfileKind,
    StatusDimension, StatusLevel,
};
use crate::failures::failure_is;
use crate::text::{decimal, decimal_text, is_some_text, text, text_bytes};

verus! {

/// The stable identifier of the profile that this application owns.
pub const MANAGED_UUID: &'static str = "14e8cce1-e96d-4d55-b014-141100000001";

/// Only the stable identifier proves ownership; a matching display name does not.
pub open spec fn profile_kind_of(uuid: Option<String>) -> ProfileKind {
    if uuid matches Some(u) && u@ == MANAGED_UUID@ {
        ProfileKind::Managed
    } else {
        ProfileKind::External
    }
}

/// The owner of an active profile with the given identifier.
pub fn profile_kind_for_uuid(uuid: &Option<String>) -> (r: ProfileKind)
    ensures
        r == profile_kind_of(*uuid),
{
    if is_some_text(uuid, MANAGED_UUID) {
        ProfileKind::Managed
    } else {
        ProfileKind::External
    }
}

/// The sharing status that explains an observation: a subnet conflict
/// first, then working external or managed sharing, then a missing
/// upstream, otherwise an unconfigured host.
pub open spec fn is_sharing_status(s: StatusDimension, o: HostSharingObservation) -> bool {
    if o.subnet_conflict {
        status_guided(s, StatusLevel::Attention, "Puppis subnet conflict detected",
            "Resolve the other 192.168.137.0/24 route before enabling managed sharing.")
    } else if o.active && o.ipv4_shared && o.profile_kind == ProfileKind::External {
        status_guided(s, StatusLevel::Healthy, "Host sharing works through an external profile",
            "The manager will observe this profile but never modify it.")
    } else if o.active && o.ipv4_shared && o.profile_kind == ProfileKind::Managed {
        status_is(s, StatusLevel::Healthy, "Managed host sharing is active")
    } else if !o.upstream_available {
        status_guided(s, StatusLevel::Attention, "No upstream internet route",
            "Connect the host to an upstream network before enabling sharing.")
    } else {
        status_guided(s, StatusLevel::Attention, "Host sharing is not configured",
            "Review the proposed NetworkManager profile before enabling it.")
    }
}

/// The sharing status for an observation.
pub fn sharing_status(o: &HostSharingObservation) -> (s: StatusDimension)
    ensures
        is_sharing_status(s, *o),
{
    if o.subnet_conflict {
        StatusDimension::guided(StatusLevel::Attention, "Puppis subnet conflict detected",
            "Resolve the other 192.168.137.0/24 route before enabling managed sharing.")
    } else if o.active && o.ipv4_shared && o.profile_kind == ProfileKind::External {
        StatusDimension::guided(StatusLevel::Healthy, "Host sharing works through an external profile",
            "The manager will observe this profile but never modify it.")
    } else if o.active && o.ipv4_shared && o.profile_kind == ProfileKind::Managed {
        StatusDimension::plain(StatusLevel::Healthy, "Managed host sharing is active")
    } else if !o.upstream_available {
        StatusDimension::guided(StatusLevel::Attention, "No upstream internet route",
            "Connect the host to an upstream network before enabling sharing.")
    } else {
        StatusDimension::guided(StatusLevel::Attention, "Host sharing is not configured",
            "Review the proposed NetworkManager profile before enabling it.")
    }
}


/// The settings of the active profile that inspection reads.
#[derive(Debug, Clone, PartialEq, Eq)]
pub struct ProfileSettings {
    /// `connection.uuid`, when it is a string.
    pub uuid: Option<String>,
    /// `ipv4.method`, when it is a string.
    pub ipv4_method: Option<String>,
    /// `ipv6.method`, when it is a string.
    pub ipv6_method: Option<String>,
    /// `connection.autoconnect`, when it is an integer.
    pub autoconnect: Option<i64>,
}

/// The active profile of the selected interface.
#[derive(Debug, Clone, PartialEq, Eq)]
pub struct ActiveProfile {
    /// Its display name, when it could be read.
    pub id: Option<String>,
    /// Its settings, when they could be read.
    pub settings: Option<ProfileSettings>,
    /// The address and prefix of the interface's first IPv4 address entry,
    /// when both could be read.
    pub first_address: Option<(String, u64)>,
}

/// What the host's network manager reports about the selected interface.
#[derive(Debug, Clone, PartialEq, Eq)]
pub struct NetworkFacts {
    /// The host has a primary connection (an effective default route).
    pub primary_connection: bool,
    /// The active profile of the interface, if one is active.
    pub active_profile: Option<ActiveProfile>,
    /// Another interface routes the Puppis subnet.
    pub subnet_conflict: bool,
}

/// The setting is present and equals `value`.
pub open spec fn setting_is(setting: Option<String>, value: Seq<char>) -> bool {
    setting matches Some(v) && v@ == value
}

/// `o` is the observation that the facts `n` give.
pub open spec fn is_observation_of(o: HostSharingObservation, n: NetworkFacts) -> bool {
    &&& o.upstream_available == n.primary_connection
    &&& (if n.primary_connection {
        o.upstream_description matches Some(d) && d@ == "Host effective default route"@
    } else {
        o.upstream_description is None
    })
    &&& o.subnet_conflict == n.subnet_conflict
    &&& o.authorization == AuthorizationState::Prompt
    &&& match n.active_profile {
        None => {
            &&& o.profile_kind == ProfileKind::Absent
            &&& o.profile_name is None
            &&& !o.active && !o.ipv4_shared && !o.ipv6_disabled && !o.autoconnect
            &&& o.downstream_address is None
        },
        Some(p) => {
            &&& o.active
            &&& o.profile_name matches Some(name) && name@ == match p.id {
                Some(id) => id@,
                None => "Unnamed profile"@,
            }
            &&& match p.settings {
                None => o.profile_kind == ProfileKind::External && !o.ipv4_shared && !o.ipv6_disabled && !o.autoconnect,
                Some(t) => {
                    &&& o.profile_kind == profile_kind_of(t.uuid)
                    &&& o.ipv4_shared == setting_is(t.ipv4_method, "shared"@)
                    &&& o.ipv6_disabled == setting_is(t.ipv6_method, "disabled"@)
                    &&& o.autoconnect == (t.autoconnect matches Some(a) && a != 0)
                },
            }
            &&& match p.first_address {
                None => o.downstream_address is None,
                Some((address, prefix)) => o.downstream_address matches Some(d) && d@ == address@ + "/"@ + decimal(prefix as nat),
            }
        },
    }
}

/// The host sharing observation of the selected interface, from what the
/// network manager reports. Only the stable identifier of the active
/// profile decides whether this application owns it.
pub fn inspect(facts: &NetworkFacts) -> (o: HostSharingObservation)
    ensures
        is_observation_of(o, *facts),
{
    let mut o = HostSharingObservation {
        upstream_available: facts.primary_connection,
        upstream_description: if facts.primary_connection { Some(text("Host effective default route")) } else { None },
        profile_kind: ProfileKind::Absent,
        profile_name: None,
        active: false,
        ipv4_shared: false,
        downstream_address: None,
        ipv6_disabled: false,
        autoconnect: false,
        subnet_conflict: facts.subnet_conflict,
        authorization: AuthorizationState::Prompt,
    };
    match &facts.active_profile {
        None => {},
        Some(p) => {
            o.active = true;
            o.profile_kind = ProfileKind::External;
            o.profile_name = Some(match &p.id {
                Some(id) => id.clone(),
                None => text("Unnamed profile"),
            });
            match &p.settings {
                None => {},
                Some(t) => {
                    o.profile_kind = profile_kind_for_uuid(&t.uuid);
                    o.ipv4_shared = is_some_text(&t.ipv4_method, "shared");
                    o.ipv6_disabled = is_some_text(&t.ipv6_method, "disabled");
                    o.autoconnect = match t.autoconnect {
                        Some(a) => a != 0,
                        None => false,
                    };
                },
            }
            match &p.first_address {
                None => {},
                Some((address, prefix)) => {
                    o.downstream_address = Some(address.clone().concat("/").concat(decimal_text(*prefix).as_str()));
                },
            }
        },
    }
    o
}

/// `needle` occurs in `haystack`.
pub open spec fn contains_bytes(haystack: Seq<u8>, needle: Seq<u8>) -> bool {
    exists|i: int| 0 <= i && i + needle.len() <= haystack.len() && #[trigger] haystack.subrange(i, i + needle.len()) == needle
}

/// Whether the bytes of `needle` occur in those of `haystack`.
fn contains(haystack: &str, needle: &str) -> (r: bool)
    ensures
        r == contains_bytes(text_bytes(haystack@), text_bytes(needle@)),
{
    let h = haystack.as_bytes();
    let n = needle.as_bytes();
    if n.len() > h.len() {
        return false;
    }
    if n.len() == 0 {
        assert(h@.subrange(0int, 0int + n@.len()) =~= n@);
        return true;
    }
    let hl = h.len();
    let mut i: usize = 0;
    while i <= hl - n.len()
        invariant
            h@ == text_bytes(haystack@),
            n@ == text_bytes(needle@),
            hl == h@.len(),
            0 < n@.len() <= h@.len(),
            i <= h@.len() - n@.len() + 1,
            forall|k: int| 0 <= k < i ==> #[trigger] h@.subrange(k, k + n@.len()) != n@,
        decreases h@.len() - n@.len() + 1 - i,
    {
        let mut j: usize = 0;
        let mut same = true;
        while j < n.len() && same
            invariant
                hl == h@.len(),
                i + n@.len() <= h@.len(),
                j <= n@.len(),
                same ==> forall|m: int| 0 <= m < j ==> h@[i + m] == n@[m],
                !same ==> h@.subrange(i as int, i + n@.len()) != n@,
            decreases n@.len() - j + if same { 1int } else { 0int },
        {
            if h[i + j] != n[j] {
                assert(h@.subrange(i as int, i + n@.len())[j as int] != n@[j as int]);
                same = false;
            } else {
                j = j + 1;
            }
        }
        if same {
            assert(h@.subrange(i as int, i + n@.len()) =~= n@);
            return true;
        }
        i = i + 1;
    }
    proof {
        assert forall|k: int| 0 <= k && k + n@.len() <= h@.len() implies #[trigger] h@.subrange(k, k + n@.len()) != n@ by {}
    }
    false
}

/// The failure of a host network change, from the error name that the
/// network manager reported: authorization denied or cancelled, or another
/// failure.
pub open spec fn is_network_change_failure(f: OperationFailure, error_name: Option<Seq<char>>) -> bool {
    let denied = error_name matches Some(n) && (contains_bytes(text_bytes(n), text_bytes("NotAuthorized"@))
        || contains_bytes(text_bytes(n), text_bytes("Cancelled"@)));
    if denied {
        failure_is(f, "network_authorization_denied", "NetworkManager authorization was denied.",
            "Keep the current network state or try again when authorization is available.")
    } else {
        failure_is(f, "network_change_failed", "NetworkManager could not complete the requested sharing change.",
            "Inspect the current network state and diagnostics before trying again.")
    }
}

/// The failure of a host network change.
pub fn network_change_failure(error_name: Option<&str>) -> (f: OperationFailure)
    ensures
        is_network_change_failure(f, match error_name { Some(n) => Some(n@), None => None }),
{
    let denied = match error_name {
        Some(n) => contains(n, "NotAuthorized") || contains(n, "Cancelled"),
        None => false,
    };
    if denied {
        OperationFailure::safe("network_authorization_denied", "NetworkManager authorization was denied.",
            "Keep the current network state or try again when authorization is available.")
    } else {
        OperationFailure::safe("network_change_failed", "NetworkManager could not complete the requested sharing change.",
            "Inspect the current network state and diagnostics before trying again.")
    }
}


/// The name of the profile that this application owns.
pub const MANAGED_PROFILE_NAME: &'static str = "Puppis S1 Manager";
/// The name of the temporary profile that reaches an unaddressed device.
pub const BOOTSTRAP_PROFILE_NAME: &'static str = "Puppis S1 Manager bootstrap";

/// A value of a network profile setting.
#[derive(Debug, Clone, PartialEq, Eq)]
pub enum SettingValue {
    Text(String),
    Flag(bool),
    /// IPv4 addresses with their prefix lengths.
    Addresses(Vec<(String, u32)>),
}

/// One setting of a profile group.
#[derive(Debug, Clone, PartialEq, Eq)]
pub struct Setting {
    pub key: String,
    pub value: SettingValue,
}

/// A group of profile settings.
#[derive(Debug, Clone, PartialEq, Eq)]
pub struct SettingGroup {
    pub name: String,
    pub settings: Vec<Setting>,
}

/// The setting is the text `value` under `key`.
pub open spec fn is_text_setting(s: Setting, key: Seq<char>, value: Seq<char>) -> bool {
    s.key@ == key && (s.value matches SettingValue::Text(v) && v@ == value)
}

/// The setting is the flag `value` under `key`.
pub open spec fn is_flag_setting(s: Setting, key: Seq<char>, value: bool) -> bool {
    s.key@ == key && s.value == SettingValue::Flag(value)
}

/// The IPv4 group: the given method on the host address 192.168.137.1/24,
/// never the default route.
pub open spec fn is_host_addressing(g: SettingGroup, method: Seq<char>) -> bool {
    &&& g.name@ == "ipv4"@
    &&& g.settings@.len() == 3
    &&& is_text_setting(g.settings@[0], "method"@, method)
    &&& g.settings@[1].key@ == "address-data"@
    &&& (g.settings@[1].value matches SettingValue::Addresses(a)
        && a@.len() == 1 && a@[0].0@ == "192.168.137.1"@ && a@[0].1 == 24)
    &&& is_flag_setting(g.settings@[2], "never-default"@, true)
}

/// The settings of an Ethernet profile on `interface` named `id`, with the
/// stable identifier `uuid` when given, IPv4 by `method` on the host address
/// and IPv6 disabled.
pub open spec fn is_profile_settings(groups: Seq<SettingGroup>, id: Seq<char>, uuid: Option<Seq<char>>,
    interface: Seq<char>, autoconnect: bool, method: Seq<char>) -> bool
{
    let c = groups[0].settings@;
    let extra: int = if uuid is Some { 1 } else { 0 };
    &&& groups.len() == 4
    &&& groups[0].name@ == "connection"@
    &&& c.len() == 4 + extra
    &&& is_text_setting(c[0], "id"@, id)
    &&& (uuid matches Some(u) ==> is_text_setting(c[1], "uuid"@, u))
    &&& is_text_setting(c[1 + extra], "type"@, "802-3-ethernet"@)
    &&& is_text_setting(c[2 + extra], "interface-name"@, interface)
    &&& is_flag_setting(c[3 + extra], "autoconnect"@, autoconnect)
    &&& groups[1].name@ == "802-3-ethernet"@ && groups[1].settings@.len() == 0
    &&& is_host_addressing(groups[2], method)
    &&& groups[3].name@ == "ipv6"@ && groups[3].settings@.len() == 1
    &&& is_text_setting(groups[3].settings@[0], "method"@, "disabled"@)
}

fn text_setting(key: &str, value: &str) -> (s: Setting)
    ensures
        is_text_setting(s, key@, value@),
{
    Setting { key: text(key), value: SettingValue::Text(text(value)) }
}

fn flag_setting(key: &str, value: bool) -> (s: Setting)
    ensures
        is_flag_setting(s, key@, value),
{
    Setting { key: text(key), value: SettingValue::Flag(value) }
}

fn profile_settings(id: &str, uuid: Option<&str>, interface_name: &str, autoconnect: bool, method: &str) -> (r: Vec<SettingGroup>)
    ensures
        is_profile_settings(r@, id@, match uuid { Some(u) => Some(u@), None => None }, interface_name@, autoconnect, method@),
{
    let mut connection: Vec<Setting> = Vec::new();
    connection.push(text_setting("id", id));
    match uuid {
        Some(u) => connection.push(text_setting("uuid", u)),
        None => {},
    }
    connection.push(text_setting("type", "802-3-ethernet"));
    connection.push(text_setting("interface-name", interface_name));
    connection.push(flag_setting("autoconnect", autoconnect));
    let mut addresses: Vec<(String, u32)> = Vec::new();
    addresses.push((text("192.168.137.1"), 24));
    let mut ipv4: Vec<Setting> = Vec::new();
    ipv4.push(text_setting("method", method));
    ipv4.push(Setting { key: text("address-data"), value: SettingValue::Addresses(addresses) });
    ipv4.push(flag_setting("never-default", true));
    let mut ipv6: Vec<Setting> = Vec::new();
    ipv6.push(text_setting("method", "disabled"));
    let mut groups: Vec<SettingGroup> = Vec::new();
    groups.push(SettingGroup { name: text("connection"), settings: connection });
    groups.push(SettingGroup { name: text("802-3-ethernet"), settings: Vec::new() });
    groups.push(SettingGroup { name: text("ipv4"), settings: ipv4 });
    groups.push(SettingGroup { name: text("ipv6"), settings: ipv6 });
    groups
}

/// The settings of the owned sharing profile on `interface_name`: IPv4
/// shared from 192.168.137.1/24, IPv6 disabled, identified by the stable
/// identifier.
pub fn managed_settings(interface_name: &str, autoconnect: bool) -> (r: Vec<SettingGroup>)
    ensures
        is_profile_settings(r@, MANAGED_PROFILE_NAME@, Some(MANAGED_UUID@), interface_name@, autoconnect, "shared"@),
{
    profile_settings(MANAGED_PROFILE_NAME, Some(MANAGED_UUID), interface_name, autoconnect, "shared")
}

/// The settings of the temporary bootstrap profile on `interface_name`: a
/// manual 192.168.137.1/24 address, no autoconnect, IPv6 disabled.
pub fn bootstrap_settings(interface_name: &str) -> (r: Vec<SettingGroup>)
    ensures
        is_profile_settings(r@, BOOTSTRAP_PROFILE_NAME@, None, interface_name@, false, "manual"@),
{
    profile_settings(BOOTSTRAP_PROFILE_NAME, None, interface_name, false, "manual")
}


/// Reports that the host's network manager cannot be reached.
pub fn networkmanager_unavailable_failure() -> (f: OperationFailure)
    ensures
        failure_is(f, "networkmanager_unavailable", "NetworkManager state is unavailable.",
            "Make sure NetworkManager is running, then inspect the network again."),
{
    OperationFailure::safe("networkmanager_unavailable", "NetworkManager state is unavailable.",
        "Make sure NetworkManager is running, then inspect the network again.")
}

/// Reports that the network manager no longer sees the selected interface.
pub fn device_missing_failure() -> (f: OperationFailure)
    ensures
        failure_is(f, "network_device_missing", "NetworkManager no longer sees the selected USB interface.",
            "Refresh USB discovery and select an available candidate."),
{
    OperationFailure::safe("network_device_missing", "NetworkManager no longer sees the selected USB interface.",
        "Refresh USB discovery and select an available candidate.")
}

/// Reports that the owned profile no longer exists.
pub fn managed_profile_missing_failure() -> (f: OperationFailure)
    ensures
        failure_is(f, "managed_profile_missing", "The managed sharing profile no longer exists.",
            "Inspect NetworkManager state before trying another change."),
{
    OperationFailure::safe("managed_profile_missing", "The managed sharing profile no longer exists.",
        "Inspect NetworkManager state before trying another change.")
}

} // verus!
