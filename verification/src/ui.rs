//! Routing of domain events to the desktop UI: the channel each event goes
//! to and the fields of its payload.

use vstd::prelude::*;

use crate::event::{affects_capabilities, event_server, event_space, kind_name, status_str, ConnectionStatus, DiscoveredCapabilities, DomainEvent};
use crate::text::{copy_strings, views};

verus! {

/// A value in a UI event payload. Feature counts stand for the nested object
/// `{tools_count, prompts_count, resources_count}`; `Null` stands for an
/// absent optional value.
#[derive(Debug, Clone)]
pub enum PayloadValue {
    /// JSON null
    Null,
    /// A boolean
    Bool(bool),
    /// A number
    Number(u64),
    /// A UUID, by its 128-bit value
    Id(u128),
    /// A string
    Text(String),
    /// A list of strings
    TextList(Vec<String>),
    /// Feature counts of a server
    Counts { tools: u64, prompts: u64, resources: u64 },
}

/// A payload value as plain values.
pub enum PayloadSpec {
    /// JSON null
    Null,
    /// A boolean
    Bool(bool),
    /// A number
    Number(u64),
    /// A UUID
    Id(u128),
    /// A string
    Text(Seq<char>),
    /// A list of strings
    TextList(Seq<Seq<char>>),
    /// Feature counts
    Counts { tools: u64, prompts: u64, resources: u64 },
}

impl View for PayloadValue {
    type V = PayloadSpec;

    open spec fn view(&self) -> PayloadSpec {
        match self {
            PayloadValue::Null => PayloadSpec::Null,
            PayloadValue::Bool(b) => PayloadSpec::Bool(*b),
            PayloadValue::Number(n) => PayloadSpec::Number(*n),
            PayloadValue::Id(u) => PayloadSpec::Id(*u),
            PayloadValue::Text(s) => PayloadSpec::Text(s@),
            PayloadValue::TextList(v) => PayloadSpec::TextList(views(v@)),
            PayloadValue::Counts { tools, prompts, resources } => PayloadSpec::Counts {
                tools: *tools,
                prompts: *prompts,
                resources: *resources,
            },
        }
    }
}

/// The fields of a payload as plain values.
pub open spec fn payload_view(p: Seq<(&'static str, PayloadValue)>) -> Seq<(Seq<char>, PayloadSpec)> {
    p.map_values(|f: (&'static str, PayloadValue)| (f.0@, f.1@))
}

/// A string field value.
pub open spec fn text(s: String) -> PayloadSpec {
    PayloadSpec::Text(s@)
}

/// An optional string field value: null when absent.
pub open spec fn opt_text(s: Option<String>) -> PayloadSpec {
    match s {
        Some(v) => PayloadSpec::Text(v@),
        None => PayloadSpec::Null,
    }
}

/// The feature counts of discovered capabilities.
pub open spec fn counts_of(f: DiscoveredCapabilities) -> PayloadSpec {
    PayloadSpec::Counts {
        tools: f.tools@.len() as u64,
        prompts: f.prompts@.len() as u64,
        resources: f.resources@.len() as u64,
    }
}

/// The UI channel an event goes to.
pub open spec fn ui_channel(e: DomainEvent) -> Seq<char> {
    match e {
        DomainEvent::SpaceCreated { .. } | DomainEvent::SpaceUpdated { .. }
        | DomainEvent::SpaceDeleted { .. } | DomainEvent::SpaceActivated { .. } => "space-changed"@,
        DomainEvent::ServerInstalled { .. } | DomainEvent::ServerUninstalled { .. }
        | DomainEvent::ServerConfigUpdated { .. } | DomainEvent::ServerEnabled { .. }
        | DomainEvent::ServerDisabled { .. } => "server-changed"@,
        DomainEvent::ServerStatusChanged { .. } => "server-status-changed"@,
        DomainEvent::ServerAuthProgress { .. } => "server-auth-progress"@,
        DomainEvent::ServerFeaturesRefreshed { .. } => "server-features-refreshed"@,
        DomainEvent::FeatureSetCreated { .. } | DomainEvent::FeatureSetUpdated { .. }
        | DomainEvent::FeatureSetDeleted { .. } | DomainEvent::FeatureSetMembersChanged { .. } =>
            "feature-set-changed"@,
        DomainEvent::ClientRegistered { .. } | DomainEvent::ClientReconnected { .. }
        | DomainEvent::ClientUpdated { .. } | DomainEvent::ClientDeleted { .. }
        | DomainEvent::ClientTokenIssued { .. } => "client-changed"@,
        DomainEvent::GrantIssued { .. } | DomainEvent::GrantRevoked { .. }
        | DomainEvent::ClientGrantsUpdated { .. } => "grants-changed"@,
        DomainEvent::GatewayStarted { .. } | DomainEvent::GatewayStopped => "gateway-changed"@,
        DomainEvent::ServerAuthRequired { .. } => "server-auth-required"@,
        DomainEvent::ToolsChanged { .. } | DomainEvent::PromptsChanged { .. }
        | DomainEvent::ResourcesChanged { .. } => "mcp-notification"@,
    }
}

/// The payload fields of an event, in order.
pub open spec fn ui_payload(e: DomainEvent) -> Seq<(Seq<char>, PayloadSpec)> {
    match e {
        DomainEvent::SpaceCreated { space_id, name, icon } => seq![
            ("action"@, PayloadSpec::Text("created"@)),
            ("space_id"@, PayloadSpec::Id(space_id)),
            ("name"@, text(name)),
            ("icon"@, opt_text(icon)),
        ],
        DomainEvent::SpaceUpdated { space_id, name } => seq![
            ("action"@, PayloadSpec::Text("updated"@)),
            ("space_id"@, PayloadSpec::Id(space_id)),
            ("name"@, text(name)),
        ],
        DomainEvent::SpaceDeleted { space_id } => seq![
            ("action"@, PayloadSpec::Text("deleted"@)),
            ("space_id"@, PayloadSpec::Id(space_id)),
        ],
        DomainEvent::SpaceActivated { from_space_id, to_space_id, to_space_name } => seq![
            ("action"@, PayloadSpec::Text("activated"@)),
            ("from_space_id"@, match from_space_id {
                Some(u) => PayloadSpec::Id(u),
                None => PayloadSpec::Null,
            }),
            ("to_space_id"@, PayloadSpec::Id(to_space_id)),
            ("to_space_name"@, text(to_space_name)),
        ],
        DomainEvent::ServerInstalled { space_id, server_id, server_name } => seq![
            ("action"@, PayloadSpec::Text("installed"@)),
            ("space_id"@, PayloadSpec::Id(space_id)),
            ("server_id"@, text(server_id)),
            ("server_name"@, text(server_name)),
        ],
        DomainEvent::ServerUninstalled { space_id, server_id } => server_action("uninstalled"@, space_id, server_id),
        DomainEvent::ServerConfigUpdated { space_id, server_id } => server_action("config_updated"@, space_id, server_id),
        DomainEvent::ServerEnabled { space_id, server_id } => server_action("enabled"@, space_id, server_id),
        DomainEvent::ServerDisabled { space_id, server_id } => server_action("disabled"@, space_id, server_id),
        DomainEvent::ServerStatusChanged {
            space_id,
            server_id,
            status,
            flow_id,
            has_connected_before,
            message,
            features,
        } => seq![
            ("space_id"@, PayloadSpec::Id(space_id)),
            ("server_id"@, text(server_id)),
            ("status"@, PayloadSpec::Text(status_str(status))),
            ("flow_id"@, PayloadSpec::Number(flow_id)),
            ("has_connected_before"@, PayloadSpec::Bool(has_connected_before)),
            ("message"@, opt_text(message)),
            ("features"@, match features {
                Some(f) => counts_of(f),
                None => PayloadSpec::Null,
            }),
        ],
        DomainEvent::ServerAuthProgress { space_id, server_id, remaining_seconds, flow_id } => seq![
            ("space_id"@, PayloadSpec::Id(space_id)),
            ("server_id"@, text(server_id)),
            ("remaining_seconds"@, PayloadSpec::Number(remaining_seconds)),
            ("flow_id"@, PayloadSpec::Number(flow_id)),
        ],
        DomainEvent::ServerFeaturesRefreshed { space_id, server_id, features, added, removed } => seq![
            ("space_id"@, PayloadSpec::Id(space_id)),
            ("server_id"@, text(server_id)),
            ("tools_count"@, PayloadSpec::Number(features.tools@.len() as u64)),
            ("prompts_count"@, PayloadSpec::Number(features.prompts@.len() as u64)),
            ("resources_count"@, PayloadSpec::Number(features.resources@.len() as u64)),
            ("added"@, PayloadSpec::TextList(views(added@))),
            ("removed"@, PayloadSpec::TextList(views(removed@))),
        ],
        DomainEvent::FeatureSetCreated { space_id, feature_set_id, name, feature_set_type } => seq![
            ("action"@, PayloadSpec::Text("created"@)),
            ("space_id"@, PayloadSpec::Id(space_id)),
            ("feature_set_id"@, text(feature_set_id)),
            ("name"@, text(name)),
            ("feature_set_type"@, opt_text(feature_set_type)),
        ],
        DomainEvent::FeatureSetUpdated { space_id, feature_set_id, name } => seq![
            ("action"@, PayloadSpec::Text("updated"@)),
            ("space_id"@, PayloadSpec::Id(space_id)),
            ("feature_set_id"@, text(feature_set_id)),
            ("name"@, text(name)),
        ],
        DomainEvent::FeatureSetDeleted { space_id, feature_set_id } => seq![
            ("action"@, PayloadSpec::Text("deleted"@)),
            ("space_id"@, PayloadSpec::Id(space_id)),
            ("feature_set_id"@, text(feature_set_id)),
        ],
        DomainEvent::FeatureSetMembersChanged { space_id, feature_set_id, added_count, removed_count } => seq![
            ("action"@, PayloadSpec::Text("members_changed"@)),
            ("space_id"@, PayloadSpec::Id(space_id)),
            ("feature_set_id"@, text(feature_set_id)),
            ("added_count"@, PayloadSpec::Number(added_count as u64)),
            ("removed_count"@, PayloadSpec::Number(removed_count as u64)),
        ],
        DomainEvent::ClientRegistered { client_id, client_name, registration_type } => seq![
            ("action"@, PayloadSpec::Text("registered"@)),
            ("client_id"@, text(client_id)),
            ("client_name"@, text(client_name)),
            ("registration_type"@, opt_text(registration_type)),
        ],
        DomainEvent::ClientReconnected { client_id, client_name } => seq![
            ("action"@, PayloadSpec::Text("reconnected"@)),
            ("client_id"@, text(client_id)),
            ("client_name"@, text(client_name)),
        ],
        DomainEvent::ClientUpdated { client_id } => client_action("updated"@, client_id),
        DomainEvent::ClientDeleted { client_id } => client_action("deleted"@, client_id),
        DomainEvent::ClientTokenIssued { client_id } => client_action("token_issued"@, client_id),
        DomainEvent::GrantIssued { client_id, space_id, feature_set_id } => seq![
            ("action"@, PayloadSpec::Text("granted"@)),
            ("client_id"@, text(client_id)),
            ("space_id"@, PayloadSpec::Id(space_id)),
            ("feature_set_id"@, text(feature_set_id)),
        ],
        DomainEvent::GrantRevoked { client_id, space_id, feature_set_id } => seq![
            ("action"@, PayloadSpec::Text("revoked"@)),
            ("client_id"@, text(client_id)),
            ("space_id"@, PayloadSpec::Id(space_id)),
            ("feature_set_id"@, text(feature_set_id)),
        ],
        DomainEvent::ClientGrantsUpdated { client_id, space_id, feature_set_ids } => seq![
            ("action"@, PayloadSpec::Text("batch_updated"@)),
            ("client_id"@, text(client_id)),
            ("space_id"@, PayloadSpec::Id(space_id)),
            ("feature_set_ids"@, PayloadSpec::TextList(views(feature_set_ids@))),
        ],
        DomainEvent::GatewayStarted { url, port } => seq![
            ("action"@, PayloadSpec::Text("started"@)),
            ("url"@, text(url)),
            ("port"@, PayloadSpec::Number(port as u64)),
        ],
        DomainEvent::GatewayStopped => seq![("action"@, PayloadSpec::Text("stopped"@))],
        DomainEvent::ServerAuthRequired { space_id, server_id, auth_url } => seq![
            ("space_id"@, PayloadSpec::Id(space_id)),
            ("server_id"@, text(server_id)),
            ("auth_url"@, text(auth_url)),
        ],
        DomainEvent::ToolsChanged { space_id, server_id } => notification("tools_changed"@, space_id, server_id),
        DomainEvent::PromptsChanged { space_id, server_id } => notification("prompts_changed"@, space_id, server_id),
        DomainEvent::ResourcesChanged { space_id, server_id } => notification("resources_changed"@, space_id, server_id),
    }
}

/// The payload of a server lifecycle event.
pub open spec fn server_action(action: Seq<char>, space_id: u128, server_id: String) -> Seq<(Seq<char>, PayloadSpec)> {
    seq![
        ("action"@, PayloadSpec::Text(action)),
        ("space_id"@, PayloadSpec::Id(space_id)),
        ("server_id"@, text(server_id)),
    ]
}

/// The payload of a client event that names only the client.
pub open spec fn client_action(action: Seq<char>, client_id: String) -> Seq<(Seq<char>, PayloadSpec)> {
    seq![("action"@, PayloadSpec::Text(action)), ("client_id"@, text(client_id))]
}

/// The payload of a backend list-changed notification.
pub open spec fn notification(kind: Seq<char>, space_id: u128, server_id: String) -> Seq<(Seq<char>, PayloadSpec)> {
    seq![
        ("type"@, PayloadSpec::Text(kind)),
        ("space_id"@, PayloadSpec::Id(space_id)),
        ("server_id"@, text(server_id)),
    ]
}

/// A string value holding the characters of `s`.
fn word(s: &str) -> (r: PayloadValue)
    ensures
        r@ == PayloadSpec::Text(s@),
{
    PayloadValue::Text(crate::text::owned(s))
}

/// A string value: a copy of `s`.
fn text_of(s: &String) -> (r: PayloadValue)
    ensures
        r@ == text(*s),
{
    PayloadValue::Text(s.clone())
}

/// An optional string value.
fn opt_text_of(s: &Option<String>) -> (r: PayloadValue)
    ensures
        r@ == opt_text(*s),
{
    match s {
        Some(v) => PayloadValue::Text(v.clone()),
        None => PayloadValue::Null,
    }
}

/// An optional UUID value.
fn opt_id_of(u: &Option<u128>) -> (r: PayloadValue)
    ensures
        r@ == match *u {
            Some(x) => PayloadSpec::Id(x),
            None => PayloadSpec::Null,
        },
{
    match u {
        Some(x) => PayloadValue::Id(*x),
        None => PayloadValue::Null,
    }
}

/// The feature counts of optional capabilities.
fn opt_counts_of(f: &Option<DiscoveredCapabilities>) -> (r: PayloadValue)
    ensures
        r@ == match *f {
            Some(c) => counts_of(c),
            None => PayloadSpec::Null,
        },
{
    match f {
        Some(c) => PayloadValue::Counts {
            tools: c.tools.len() as u64,
            prompts: c.prompts.len() as u64,
            resources: c.resources.len() as u64,
        },
        None => PayloadValue::Null,
    }
}

/// The UI channel of a domain event and the fields of its payload.
pub fn map_domain_event_to_ui(event: &DomainEvent) -> (r: (&'static str, Vec<(&'static str, PayloadValue)>))
    ensures
        r.0@ == ui_channel(*event),
        payload_view(r.1@) == ui_payload(*event),
{
    let r = match event {
        DomainEvent::SpaceCreated { space_id, name, icon } => {
            let p = vec![
                ("action", word("created")),
                ("space_id", PayloadValue::Id(*space_id)),
                ("name", text_of(name)),
                ("icon", opt_text_of(icon)),
            ];
            ("space-changed", p)
        },
        DomainEvent::SpaceUpdated { space_id, name } => {
            let p = vec![
                ("action", word("updated")),
                ("space_id", PayloadValue::Id(*space_id)),
                ("name", text_of(name)),
            ];
            ("space-changed", p)
        },
        DomainEvent::SpaceDeleted { space_id } => {
            let p = vec![
                ("action", word("deleted")),
                ("space_id", PayloadValue::Id(*space_id)),
            ];
            ("space-changed", p)
        },
        DomainEvent::SpaceActivated { from_space_id, to_space_id, to_space_name } => {
            let p = vec![
                ("action", word("activated")),
                ("from_space_id", opt_id_of(from_space_id)),
                ("to_space_id", PayloadValue::Id(*to_space_id)),
                ("to_space_name", text_of(to_space_name)),
            ];
            ("space-changed", p)
        },
        DomainEvent::ServerInstalled { space_id, server_id, server_name } => {
            let p = vec![
                ("action", word("installed")),
                ("space_id", PayloadValue::Id(*space_id)),
                ("server_id", text_of(server_id)),
                ("server_name", text_of(server_name)),
            ];
            ("server-changed", p)
        },
        DomainEvent::ServerUninstalled { space_id, server_id } => {
            let p = vec![
                ("action", word("uninstalled")),
                ("space_id", PayloadValue::Id(*space_id)),
                ("server_id", text_of(server_id)),
            ];
            ("server-changed", p)
        },
        DomainEvent::ServerConfigUpdated { space_id, server_id } => {
            let p = vec![
                ("action", word("config_updated")),
                ("space_id", PayloadValue::Id(*space_id)),
                ("server_id", text_of(server_id)),
            ];
            ("server-changed", p)
        },
        DomainEvent::ServerEnabled { space_id, server_id } => {
            let p = vec![
                ("action", word("enabled")),
                ("space_id", PayloadValue::Id(*space_id)),
                ("server_id", text_of(server_id)),
            ];
            ("server-changed", p)
        },
        DomainEvent::ServerDisabled { space_id, server_id } => {
            let p = vec![
                ("action", word("disabled")),
                ("space_id", PayloadValue::Id(*space_id)),
                ("server_id", text_of(server_id)),
            ];
            ("server-changed", p)
        },
        DomainEvent::ServerStatusChanged { space_id, server_id, status, flow_id, has_connected_before, message, features } => {
            let p = vec![
                ("space_id", PayloadValue::Id(*space_id)),
                ("server_id", text_of(server_id)),
                ("status", word(status.as_str())),
                ("flow_id", PayloadValue::Number(*flow_id)),
                ("has_connected_before", PayloadValue::Bool(*has_connected_before)),
                ("message", opt_text_of(message)),
                ("features", opt_counts_of(features)),
            ];
            ("server-status-changed", p)
        },
        DomainEvent::ServerAuthProgress { space_id, server_id, remaining_seconds, flow_id } => {
            let p = vec![
                ("space_id", PayloadValue::Id(*space_id)),
                ("server_id", text_of(server_id)),
                ("remaining_seconds", PayloadValue::Number(*remaining_seconds)),
                ("flow_id", PayloadValue::Number(*flow_id)),
            ];
            ("server-auth-progress", p)
        },
        DomainEvent::ServerFeaturesRefreshed { space_id, server_id, features, added, removed } => {
            let p = vec![
                ("space_id", PayloadValue::Id(*space_id)),
                ("server_id", text_of(server_id)),
                ("tools_count", PayloadValue::Number(features.tools.len() as u64)),
                ("prompts_count", PayloadValue::Number(features.prompts.len() as u64)),
                ("resources_count", PayloadValue::Number(features.resources.len() as u64)),
                ("added", PayloadValue::TextList(copy_strings(added))),
                ("removed", PayloadValue::TextList(copy_strings(removed))),
            ];
            ("server-features-refreshed", p)
        },
        DomainEvent::FeatureSetCreated { space_id, feature_set_id, name, feature_set_type } => {
            let p = vec![
                ("action", word("created")),
                ("space_id", PayloadValue::Id(*space_id)),
                ("feature_set_id", text_of(feature_set_id)),
                ("name", text_of(name)),
                ("feature_set_type", opt_text_of(feature_set_type)),
            ];
            ("feature-set-changed", p)
        },
        DomainEvent::FeatureSetUpdated { space_id, feature_set_id, name } => {
            let p = vec![
                ("action", word("updated")),
                ("space_id", PayloadValue::Id(*space_id)),
                ("feature_set_id", text_of(feature_set_id)),
                ("name", text_of(name)),
            ];
            ("feature-set-changed", p)
        },
        DomainEvent::FeatureSetDeleted { space_id, feature_set_id } => {
            let p = vec![
                ("action", word("deleted")),
                ("space_id", PayloadValue::Id(*space_id)),
                ("feature_set_id", text_of(feature_set_id)),
            ];
            ("feature-set-changed", p)
        },
        DomainEvent::FeatureSetMembersChanged { space_id, feature_set_id, added_count, removed_count } => {
            let p = vec![
                ("action", word("members_changed")),
                ("space_id", PayloadValue::Id(*space_id)),
                ("feature_set_id", text_of(feature_set_id)),
                ("added_count", PayloadValue::Number(*added_count as u64)),
                ("removed_count", PayloadValue::Number(*removed_count as u64)),
            ];
            ("feature-set-changed", p)
        },
        DomainEvent::ClientRegistered { client_id, client_name, registration_type } => {
            let p = vec![
                ("action", word("registered")),
                ("client_id", text_of(client_id)),
                ("client_name", text_of(client_name)),
                ("registration_type", opt_text_of(registration_type)),
            ];
            ("client-changed", p)
        },
        DomainEvent::ClientReconnected { client_id, client_name } => {
            let p = vec![
                ("action", word("reconnected")),
                ("client_id", text_of(client_id)),
                ("client_name", text_of(client_name)),
            ];
            ("client-changed", p)
        },
        DomainEvent::ClientUpdated { client_id } => {
            let p = vec![
                ("action", word("updated")),
                ("client_id", text_of(client_id)),
            ];
            ("client-changed", p)
        },
        DomainEvent::ClientDeleted { client_id } => {
            let p = vec![
                ("action", word("deleted")),
                ("client_id", text_of(client_id)),
            ];
            ("client-changed", p)
        },
        DomainEvent::ClientTokenIssued { client_id } => {
            let p = vec![
                ("action", word("token_issued")),
                ("client_id", text_of(client_id)),
            ];
            ("client-changed", p)
        },
        DomainEvent::GrantIssued { client_id, space_id, feature_set_id } => {
            let p = vec![
                ("action", word("granted")),
                ("client_id", text_of(client_id)),
                ("space_id", PayloadValue::Id(*space_id)),
                ("feature_set_id", text_of(feature_set_id)),
            ];
            ("grants-changed", p)
        },
        DomainEvent::GrantRevoked { client_id, space_id, feature_set_id } => {
            let p = vec![
                ("action", word("revoked")),
                ("client_id", text_of(client_id)),
                ("space_id", PayloadValue::Id(*space_id)),
                ("feature_set_id", text_of(feature_set_id)),
            ];
            ("grants-changed", p)
        },
        DomainEvent::ClientGrantsUpdated { client_id, space_id, feature_set_ids } => {
            let p = vec![
                ("action", word("batch_updated")),
                ("client_id", text_of(client_id)),
                ("space_id", PayloadValue::Id(*space_id)),
                ("feature_set_ids", PayloadValue::TextList(copy_strings(feature_set_ids))),
            ];
            ("grants-changed", p)
        },
        DomainEvent::GatewayStarted { url, port } => {
            let p = vec![
                ("action", word("started")),
                ("url", text_of(url)),
                ("port", PayloadValue::Number(*port as u64)),
            ];
            ("gateway-changed", p)
        },
        DomainEvent::GatewayStopped => {
            let p = vec![
                ("action", word("stopped")),
            ];
            ("gateway-changed", p)
        },
        DomainEvent::ServerAuthRequired { space_id, server_id, auth_url } => {
            let p = vec![
                ("space_id", PayloadValue::Id(*space_id)),
                ("server_id", text_of(server_id)),
                ("auth_url", text_of(auth_url)),
            ];
            ("server-auth-required", p)
        },
        DomainEvent::ToolsChanged { space_id, server_id } => {
            let p = vec![
                ("type", word("tools_changed")),
                ("space_id", PayloadValue::Id(*space_id)),
                ("server_id", text_of(server_id)),
            ];
            ("mcp-notification", p)
        },
        DomainEvent::PromptsChanged { space_id, server_id } => {
            let p = vec![
                ("type", word("prompts_changed")),
                ("space_id", PayloadValue::Id(*space_id)),
                ("server_id", text_of(server_id)),
            ];
            ("mcp-notification", p)
        },
        DomainEvent::ResourcesChanged { space_id, server_id } => {
            let p = vec![
                ("type", word("resources_changed")),
                ("space_id", PayloadValue::Id(*space_id)),
                ("server_id", text_of(server_id)),
            ];
            ("mcp-notification", p)
        },
    };
    assert(payload_view(r.1@) =~= ui_payload(*event));
    r
}

/// The payload has the field `name` with value `v`.
pub open spec fn has_field(p: Seq<(Seq<char>, PayloadSpec)>, name: Seq<char>, v: PayloadSpec) -> bool {
    exists|i: int| 0 <= i < p.len() && #[trigger] p[i] == (name, v)
}

/// The payload field that names an event's space: "to_space_id" for an
/// activated space, "space_id" for every other event.
pub open spec fn space_field(e: DomainEvent) -> Seq<char> {
    if e is SpaceActivated {
        "to_space_id"@
    } else {
        "space_id"@
    }
}

/// Every event scoped to a space names that space in its UI payload, and
/// every event scoped to a server names that server ("server_id").
pub proof fn law_payload_names_scope(e: DomainEvent)
    ensures
        event_space(e) matches Some(u) ==> has_field(ui_payload(e), space_field(e), PayloadSpec::Id(u)),
        event_server(e) matches Some(s) ==> has_field(ui_payload(e), "server_id"@, PayloadSpec::Text(s@)),
{
    let p = ui_payload(e);
    match e {
        DomainEvent::SpaceCreated { .. } | DomainEvent::SpaceUpdated { .. } | DomainEvent::SpaceDeleted { .. }
        | DomainEvent::FeatureSetCreated { .. } | DomainEvent::FeatureSetUpdated { .. }
        | DomainEvent::FeatureSetDeleted { .. } | DomainEvent::FeatureSetMembersChanged { .. } => {
            assert(p[1] == (space_field(e), PayloadSpec::Id(event_space(e)->0)));
        },
        DomainEvent::SpaceActivated { .. } => {
            assert(p[2] == (space_field(e), PayloadSpec::Id(event_space(e)->0)));
        },
        DomainEvent::ServerInstalled { server_id, .. } | DomainEvent::ServerUninstalled { server_id, .. }
        | DomainEvent::ServerConfigUpdated { server_id, .. } | DomainEvent::ServerEnabled { server_id, .. }
        | DomainEvent::ServerDisabled { server_id, .. } | DomainEvent::ToolsChanged { server_id, .. }
        | DomainEvent::PromptsChanged { server_id, .. } | DomainEvent::ResourcesChanged { server_id, .. } => {
            assert(p[1] == (space_field(e), PayloadSpec::Id(event_space(e)->0)));
            assert(p[2] == ("server_id"@, PayloadSpec::Text(server_id@)));
        },
        DomainEvent::ServerStatusChanged { server_id, .. } | DomainEvent::ServerAuthProgress { server_id, .. }
        | DomainEvent::ServerFeaturesRefreshed { server_id, .. } | DomainEvent::ServerAuthRequired { server_id, .. } => {
            assert(p[0] == (space_field(e), PayloadSpec::Id(event_space(e)->0)));
            assert(p[1] == ("server_id"@, PayloadSpec::Text(server_id@)));
        },
        DomainEvent::GrantIssued { .. } | DomainEvent::GrantRevoked { .. } | DomainEvent::ClientGrantsUpdated { .. } => {
            assert(p[2] == (space_field(e), PayloadSpec::Id(event_space(e)->0)));
        },
        _ => {},
    }
}

/// A backend's list-changed notification (tools, prompts or resources)
/// always changes what clients see, so clients are told; and every event the
/// UI receives as an MCP notification, or on the grants channel, affects
/// the capabilities clients see.
pub proof fn law_list_changes_affect_capabilities(e: DomainEvent)
    ensures
        (e is ToolsChanged || e is PromptsChanged || e is ResourcesChanged) ==> affects_capabilities(e),
        ui_channel(e) == "mcp-notification"@ ==> affects_capabilities(e),
        ui_channel(e) == "grants-changed"@ ==> affects_capabilities(e),
{
    reveal_strlit("mcp-notification");
    reveal_strlit("grants-changed");
    reveal_strlit("space-changed");
    reveal_strlit("server-changed");
    reveal_strlit("server-status-changed");
    reveal_strlit("server-auth-progress");
    reveal_strlit("server-features-refreshed");
    reveal_strlit("feature-set-changed");
    reveal_strlit("client-changed");
    reveal_strlit("gateway-changed");
    reveal_strlit("server-auth-required");
    if !affects_capabilities(e) {
        let c = ui_channel(e);
        assert(c.len() != 16 || c[0] != 'm');
        assert(c.len() != 14 || c[0] != 'g');
        assert(c != "mcp-notification"@);
        assert(c != "grants-changed"@);
    }
}

/// The payload's first field is "action", and the event's kind name is
/// `prefix` followed by the action's text.
pub open spec fn action_names_kind(p: Seq<(Seq<char>, PayloadSpec)>, prefix: Seq<char>, kind: Seq<char>) -> bool {
    p.len() > 0 && p[0].0 == "action"@ && match p[0].1 {
        PayloadSpec::Text(a) => kind == prefix + a,
        _ => false,
    }
}

/// The action a space, server, feature set, client or gateway event shows
/// the UI names the event's own kind: the kind's name is the event's
/// subject ("space_", "server_", ...) followed by the action (a disabled
/// server's action is "disabled", an enabled one's "enabled").
pub proof fn law_action_names_event_kind(e: DomainEvent)
    ensures
        (e is SpaceCreated || e is SpaceUpdated || e is SpaceDeleted || e is SpaceActivated) ==> action_names_kind(ui_payload(e), "space_"@, kind_name(e)),
        (e is ServerInstalled || e is ServerUninstalled || e is ServerConfigUpdated || e is ServerEnabled || e is ServerDisabled) ==> action_names_kind(ui_payload(e), "server_"@, kind_name(e)),
        (e is FeatureSetCreated || e is FeatureSetUpdated || e is FeatureSetDeleted || e is FeatureSetMembersChanged) ==> action_names_kind(ui_payload(e), "feature_set_"@, kind_name(e)),
        (e is ClientRegistered || e is ClientReconnected || e is ClientUpdated || e is ClientDeleted || e is ClientTokenIssued) ==> action_names_kind(ui_payload(e), "client_"@, kind_name(e)),
        (e is GatewayStarted || e is GatewayStopped) ==> action_names_kind(ui_payload(e), "gateway_"@, kind_name(e)),
{
    reveal_strlit("action");
    match e {
        DomainEvent::SpaceCreated { .. } => {
            reveal_strlit("space_");
            reveal_strlit("created");
            reveal_strlit("space_created");
            assert(kind_name(e) =~= "space_"@ + "created"@);
        },
        DomainEvent::SpaceUpdated { .. } => {
            reveal_strlit("space_");
            reveal_strlit("updated");
            reveal_strlit("space_updated");
            assert(kind_name(e) =~= "space_"@ + "updated"@);
        },
        DomainEvent::SpaceDeleted { .. } => {
            reveal_strlit("space_");
            reveal_strlit("deleted");
            reveal_strlit("space_deleted");
            assert(kind_name(e) =~= "space_"@ + "deleted"@);
        },
        DomainEvent::SpaceActivated { .. } => {
            reveal_strlit("space_");
            reveal_strlit("activated");
            reveal_strlit("space_activated");
            assert(kind_name(e) =~= "space_"@ + "activated"@);
        },
        DomainEvent::ServerInstalled { .. } => {
            reveal_strlit("server_");
            reveal_strlit("installed");
            reveal_strlit("server_installed");
            assert(kind_name(e) =~= "server_"@ + "installed"@);
        },
        DomainEvent::ServerUninstalled { .. } => {
            reveal_strlit("server_");
            reveal_strlit("uninstalled");
            reveal_strlit("server_uninstalled");
            assert(kind_name(e) =~= "server_"@ + "uninstalled"@);
        },
        DomainEvent::ServerConfigUpdated { .. } => {
            reveal_strlit("server_");
            reveal_strlit("config_updated");
            reveal_strlit("server_config_updated");
            assert(kind_name(e) =~= "server_"@ + "config_updated"@);
        },
        DomainEvent::ServerEnabled { .. } => {
            reveal_strlit("server_");
            reveal_strlit("enabled");
            reveal_strlit("server_enabled");
            assert(kind_name(e) =~= "server_"@ + "enabled"@);
        },
        DomainEvent::ServerDisabled { .. } => {
            reveal_strlit("server_");
            reveal_strlit("disabled");
            reveal_strlit("server_disabled");
            assert(kind_name(e) =~= "server_"@ + "disabled"@);
        },
        DomainEvent::FeatureSetCreated { .. } => {
            reveal_strlit("feature_set_");
            reveal_strlit("created");
            reveal_strlit("feature_set_created");
            assert(kind_name(e) =~= "feature_set_"@ + "created"@);
        },
        DomainEvent::FeatureSetUpdated { .. } => {
            reveal_strlit("feature_set_");
            reveal_strlit("updated");
            reveal_strlit("feature_set_updated");
            assert(kind_name(e) =~= "feature_set_"@ + "updated"@);
        },
        DomainEvent::FeatureSetDeleted { .. } => {
            reveal_strlit("feature_set_");
            reveal_strlit("deleted");
            reveal_strlit("feature_set_deleted");
            assert(kind_name(e) =~= "feature_set_"@ + "deleted"@);
        },
        DomainEvent::FeatureSetMembersChanged { .. } => {
            reveal_strlit("feature_set_");
            reveal_strlit("members_changed");
            reveal_strlit("feature_set_members_changed");
            assert(kind_name(e) =~= "feature_set_"@ + "members_changed"@);
        },
        DomainEvent::ClientRegistered { .. } => {
            reveal_strlit("client_");
            reveal_strlit("registered");
            reveal_strlit("client_registered");
            assert(kind_name(e) =~= "client_"@ + "registered"@);
        },
        DomainEvent::ClientReconnected { .. } => {
            reveal_strlit("client_");
            reveal_strlit("reconnected");
            reveal_strlit("client_reconnected");
            assert(kind_name(e) =~= "client_"@ + "reconnected"@);
        },
        DomainEvent::ClientUpdated { .. } => {
            reveal_strlit("client_");
            reveal_strlit("updated");
            reveal_strlit("client_updated");
            assert(kind_name(e) =~= "client_"@ + "updated"@);
        },
        DomainEvent::ClientDeleted { .. } => {
            reveal_strlit("client_");
            reveal_strlit("deleted");
            reveal_strlit("client_deleted");
            assert(kind_name(e) =~= "client_"@ + "deleted"@);
        },
        DomainEvent::ClientTokenIssued { .. } => {
            reveal_strlit("client_");
            reveal_strlit("token_issued");
            reveal_strlit("client_token_issued");
            assert(kind_name(e) =~= "client_"@ + "token_issued"@);
        },
        DomainEvent::GatewayStarted { .. } => {
            reveal_strlit("gateway_");
            reveal_strlit("started");
            reveal_strlit("gateway_started");
            assert(kind_name(e) =~= "gateway_"@ + "started"@);
        },
        DomainEvent::GatewayStopped => {
            reveal_strlit("gateway_");
            reveal_strlit("stopped");
            reveal_strlit("gateway_stopped");
            assert(kind_name(e) =~= "gateway_"@ + "stopped"@);
        },
        _ => {},
    }
}

/// Two events of different kinds on one of these channels show the UI
/// different actions.
pub proof fn law_distinct_kinds_distinct_actions(e1: DomainEvent, e2: DomainEvent, prefix: Seq<char>)
    requires
        action_names_kind(ui_payload(e1), prefix, kind_name(e1)),
        action_names_kind(ui_payload(e2), prefix, kind_name(e2)),
        kind_name(e1) != kind_name(e2),
    ensures
        ui_payload(e1)[0] != ui_payload(e2)[0],
{
}

} // verus!
