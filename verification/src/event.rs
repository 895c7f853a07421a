//! Domain events: every state change of the system, as one enum, and the
//! connection status of servers. Space IDs and other UUIDs are carried as
//! their 128-bit values.

use vstd::prelude::*;

use crate::feature::ServerFeature;
use crate::ids::{new_uuid_u128, now_epoch_secs};

verus! {

/// Features discovered on a server connection.
#[derive(Debug, Clone)]
pub struct DiscoveredCapabilities {
    /// Tools
    pub tools: Vec<ServerFeature>,
    /// Prompts
    pub prompts: Vec<ServerFeature>,
    /// Resources
    pub resources: Vec<ServerFeature>,
}

/// A copy of each feature, in order.
fn copy_features(v: &Vec<ServerFeature>, out: &mut Vec<ServerFeature>)
    ensures
        final(out)@ == old(out)@ + v@,
{
    let ghost start = out@;
    let mut i: usize = 0;
    while i < v.len()
        invariant
            i <= v@.len(),
            out@ == start + v@.take(i as int),
        decreases v@.len() - i,
    {
        out.push(v[i].duplicate());
        assert(v@.take(i + 1) == v@.take(i as int).push(v@[i as int]));
        i = i + 1;
    }
    assert(v@.take(v@.len() as int) == v@);
}

impl DiscoveredCapabilities {
    /// No features.
    pub fn new() -> (r: Self)
        ensures
            r.tools@.len() == 0 && r.prompts@.len() == 0 && r.resources@.len() == 0,
    {
        DiscoveredCapabilities { tools: Vec::new(), prompts: Vec::new(), resources: Vec::new() }
    }

    /// Total number of features.
    pub fn total_count(&self) -> (n: usize)
        requires
            self.tools@.len() + self.prompts@.len() + self.resources@.len() <= usize::MAX,
        ensures
            n == self.tools@.len() + self.prompts@.len() + self.resources@.len(),
    {
        self.tools.len() + self.prompts.len() + self.resources.len()
    }

    /// Whether there are no features.
    pub fn is_empty(&self) -> (b: bool)
        requires
            self.tools@.len() + self.prompts@.len() + self.resources@.len() <= usize::MAX,
        ensures
            b == (self.tools@.len() + self.prompts@.len() + self.resources@.len() == 0),
    {
        self.total_count() == 0
    }

    /// Every feature: tools, then prompts, then resources.
    pub fn all_features(&self) -> (r: Vec<ServerFeature>)
        ensures
            r@ == self.tools@ + self.prompts@ + self.resources@,
    {
        let mut all: Vec<ServerFeature> = Vec::new();
        copy_features(&self.tools, &mut all);
        copy_features(&self.prompts, &mut all);
        copy_features(&self.resources, &mut all);
        all
    }
}

impl Default for DiscoveredCapabilities {
    fn default() -> (r: Self)
        ensures
            r.tools@.len() == 0 && r.prompts@.len() == 0 && r.resources@.len() == 0,
    {
        DiscoveredCapabilities::new()
    }
}

/// Server connection status, as stored and as sent in events.
#[derive(Debug, Clone, Copy, PartialEq, Eq, Structural, Hash)]
pub enum ConnectionStatus {
    /// Connected and responding
    Connected,
    /// Not connected (idle); the default
    Disconnected,
    /// Connection failed
    Error,
    /// OAuth authentication required before connecting
    OAuthRequired,
    /// Attempting to connect
    Connecting,
    /// Refreshing features or the connection
    Refreshing,
    /// In an OAuth flow, waiting for the user
    Authenticating,
}

/// The stored name of a status.
pub open spec fn status_str(s: ConnectionStatus) -> Seq<char> {
    match s {
        ConnectionStatus::Connected => "connected"@,
        ConnectionStatus::Disconnected => "disconnected"@,
        ConnectionStatus::Error => "error"@,
        ConnectionStatus::OAuthRequired => "oauth_required"@,
        ConnectionStatus::Connecting => "connecting"@,
        ConnectionStatus::Refreshing => "refreshing"@,
        ConnectionStatus::Authenticating => "authenticating"@,
    }
}

/// The status a stored name stands for; unknown names read as Disconnected.
pub open spec fn status_of(s: Seq<char>) -> ConnectionStatus {
    if s == "connected"@ {
        ConnectionStatus::Connected
    } else if s == "error"@ {
        ConnectionStatus::Error
    } else if s == "oauth_required"@ {
        ConnectionStatus::OAuthRequired
    } else if s == "connecting"@ {
        ConnectionStatus::Connecting
    } else if s == "refreshing"@ {
        ConnectionStatus::Refreshing
    } else if s == "authenticating"@ {
        ConnectionStatus::Authenticating
    } else {
        ConnectionStatus::Disconnected
    }
}

impl Default for ConnectionStatus {
    fn default() -> (r: Self)
        ensures
            r == ConnectionStatus::Disconnected,
    {
        ConnectionStatus::Disconnected
    }
}

impl ConnectionStatus {
    /// The stored name of this status.
    pub fn as_str(&self) -> (s: &'static str)
        ensures
            s@ == status_str(*self),
    {
        match self {
            ConnectionStatus::Connected => "connected",
            ConnectionStatus::Disconnected => "disconnected",
            ConnectionStatus::Error => "error",
            ConnectionStatus::OAuthRequired => "oauth_required",
            ConnectionStatus::Connecting => "connecting",
            ConnectionStatus::Refreshing => "refreshing",
            ConnectionStatus::Authenticating => "authenticating",
        }
    }

    /// The status a stored name stands for; unknown names read as
    /// Disconnected.
    pub fn parse(s: &str) -> (r: Self)
        ensures
            r == status_of(s@),
    {
        if crate::text::str_eq(s, "connected") {
            ConnectionStatus::Connected
        } else if crate::text::str_eq(s, "error") {
            ConnectionStatus::Error
        } else if crate::text::str_eq(s, "oauth_required") {
            ConnectionStatus::OAuthRequired
        } else if crate::text::str_eq(s, "connecting") {
            ConnectionStatus::Connecting
        } else if crate::text::str_eq(s, "refreshing") {
            ConnectionStatus::Refreshing
        } else if crate::text::str_eq(s, "authenticating") {
            ConnectionStatus::Authenticating
        } else {
            ConnectionStatus::Disconnected
        }
    }

    /// Whether the server is connected (Connected or Refreshing).
    pub fn is_connected(&self) -> (b: bool)
        ensures
            b == (*self == ConnectionStatus::Connected || *self == ConnectionStatus::Refreshing),
    {
        match self {
            ConnectionStatus::Connected | ConnectionStatus::Refreshing => true,
            _ => false,
        }
    }

    /// Whether this is a state that is not transitioning.
    pub fn is_terminal(&self) -> (b: bool)
        ensures
            b == (*self == ConnectionStatus::Connected || *self == ConnectionStatus::Disconnected
                || *self == ConnectionStatus::Error || *self == ConnectionStatus::OAuthRequired),
    {
        match self {
            ConnectionStatus::Connected | ConnectionStatus::Disconnected | ConnectionStatus::Error
            | ConnectionStatus::OAuthRequired => true,
            _ => false,
        }
    }

    /// Whether this status is an error.
    pub fn is_error(&self) -> (b: bool)
        ensures
            b == (*self == ConnectionStatus::Error),
    {
        match self {
            ConnectionStatus::Error => true,
            _ => false,
        }
    }

    /// Whether authentication is needed.
    pub fn needs_auth(&self) -> (b: bool)
        ensures
            b == (*self == ConnectionStatus::OAuthRequired || *self == ConnectionStatus::Authenticating),
    {
        match self {
            ConnectionStatus::OAuthRequired | ConnectionStatus::Authenticating => true,
            _ => false,
        }
    }
}

/// Reading back the stored name of a status gives the status.
pub proof fn law_status_name_round_trip(s: ConnectionStatus)
    ensures
        status_of(status_str(s)) == s,
{
    reveal_strlit("connected");
    reveal_strlit("disconnected");
    reveal_strlit("error");
    reveal_strlit("oauth_required");
    reveal_strlit("connecting");
    reveal_strlit("refreshing");
    reveal_strlit("authenticating");
    let t = status_str(s);
    match s {
        ConnectionStatus::Connecting => {
            assert(t.len() != "connected"@.len());
            assert(t.len() != "error"@.len());
            assert(t.len() != "oauth_required"@.len());
        },
        ConnectionStatus::Refreshing => {
            assert(t[0] != "connecting"@[0]);
            assert(t.len() != "connected"@.len());
            assert(t.len() != "error"@.len());
            assert(t.len() != "oauth_required"@.len());
        },
        ConnectionStatus::Authenticating => {
            assert(t[0] != "oauth_required"@[0]);
            assert(t.len() != "connected"@.len());
            assert(t.len() != "error"@.len());
            assert(t.len() != "connecting"@.len());
        },
        ConnectionStatus::Disconnected => {
            assert(t.len() != "connected"@.len());
            assert(t.len() != "error"@.len());
            assert(t.len() != "oauth_required"@.len());
            assert(t.len() != "connecting"@.len());
            assert(t.len() != "authenticating"@.len());
        },
        ConnectionStatus::Error => {
            assert(t.len() != "connected"@.len());
        },
        ConnectionStatus::OAuthRequired => {
            assert(t.len() != "connected"@.len());
            assert(t.len() != "error"@.len());
        },
        ConnectionStatus::Connected => {},
    }
}

/// Every domain state change of the system.
#[derive(Debug, Clone)]
pub enum DomainEvent {
    /// A new space was created
    SpaceCreated { space_id: u128, name: String, icon: Option<String> },
    /// A space was updated
    SpaceUpdated { space_id: u128, name: String },
    /// A space was deleted
    SpaceDeleted { space_id: u128 },
    /// The active space changed
    SpaceActivated { from_space_id: Option<u128>, to_space_id: u128, to_space_name: String },
    /// A server was installed into a space
    ServerInstalled { space_id: u128, server_id: String, server_name: String },
    /// A server was uninstalled from a space
    ServerUninstalled { space_id: u128, server_id: String },
    /// A server's configuration was updated
    ServerConfigUpdated { space_id: u128, server_id: String },
    /// A server was enabled
    ServerEnabled { space_id: u128, server_id: String },
    /// A server was disabled
    ServerDisabled { space_id: u128, server_id: String },
    /// A server's connection status changed
    ServerStatusChanged {
        space_id: u128,
        server_id: String,
        status: ConnectionStatus,
        flow_id: u64,
        has_connected_before: bool,
        message: Option<String>,
        features: Option<DiscoveredCapabilities>,
    },
    /// OAuth authentication progress (countdown)
    ServerAuthProgress { space_id: u128, server_id: String, remaining_seconds: u64, flow_id: u64 },
    /// A server's features were refreshed
    ServerFeaturesRefreshed {
        space_id: u128,
        server_id: String,
        features: DiscoveredCapabilities,
        added: Vec<String>,
        removed: Vec<String>,
    },
    /// A feature set was created
    FeatureSetCreated {
        space_id: u128,
        feature_set_id: String,
        name: String,
        feature_set_type: Option<String>,
    },
    /// A feature set was updated
    FeatureSetUpdated { space_id: u128, feature_set_id: String, name: String },
    /// A feature set was deleted
    FeatureSetDeleted { space_id: u128, feature_set_id: String },
    /// A feature set's members changed
    FeatureSetMembersChanged {
        space_id: u128,
        feature_set_id: String,
        added_count: usize,
        removed_count: usize,
    },
    /// An MCP client was registered
    ClientRegistered { client_id: String, client_name: String, registration_type: Option<String> },
    /// An approved client reconnected
    ClientReconnected { client_id: String, client_name: String },
    /// A client's settings were updated
    ClientUpdated { client_id: String },
    /// A client was deleted
    ClientDeleted { client_id: String },
    /// A client was issued an access token
    ClientTokenIssued { client_id: String },
    /// A feature set was granted to a client in a space
    GrantIssued { client_id: String, space_id: u128, feature_set_id: String },
    /// A feature set was revoked from a client in a space
    GrantRevoked { client_id: String, space_id: u128, feature_set_id: String },
    /// A client's grants in a space were replaced
    ClientGrantsUpdated { client_id: String, space_id: u128, feature_set_ids: Vec<String> },
    /// The gateway started
    GatewayStarted { url: String, port: u16 },
    /// The gateway stopped
    GatewayStopped,
    /// A backend's tools changed
    ToolsChanged { space_id: u128, server_id: String },
    /// A backend's prompts changed
    PromptsChanged { space_id: u128, server_id: String },
    /// A backend's resources changed
    ResourcesChanged { space_id: u128, server_id: String },
    /// A connected server needs OAuth re-authentication
    ServerAuthRequired { space_id: u128, server_id: String, auth_url: String },
}

/// The snake_case name of an event's kind.
pub open spec fn kind_name(e: DomainEvent) -> Seq<char> {
    match e {
        DomainEvent::SpaceCreated { .. } => "space_created"@,
        DomainEvent::SpaceUpdated { .. } => "space_updated"@,
        DomainEvent::SpaceDeleted { .. } => "space_deleted"@,
        DomainEvent::SpaceActivated { .. } => "space_activated"@,
        DomainEvent::ServerInstalled { .. } => "server_installed"@,
        DomainEvent::ServerUninstalled { .. } => "server_uninstalled"@,
        DomainEvent::ServerConfigUpdated { .. } => "server_config_updated"@,
        DomainEvent::ServerEnabled { .. } => "server_enabled"@,
        DomainEvent::ServerDisabled { .. } => "server_disabled"@,
        DomainEvent::ServerStatusChanged { .. } => "server_status_changed"@,
        DomainEvent::ServerAuthProgress { .. } => "server_auth_progress"@,
        DomainEvent::ServerFeaturesRefreshed { .. } => "server_features_refreshed"@,
        DomainEvent::FeatureSetCreated { .. } => "feature_set_created"@,
        DomainEvent::FeatureSetUpdated { .. } => "feature_set_updated"@,
        DomainEvent::FeatureSetDeleted { .. } => "feature_set_deleted"@,
        DomainEvent::FeatureSetMembersChanged { .. } => "feature_set_members_changed"@,
        DomainEvent::ClientRegistered { .. } => "client_registered"@,
        DomainEvent::ClientReconnected { .. } => "client_reconnected"@,
        DomainEvent::ClientUpdated { .. } => "client_updated"@,
        DomainEvent::ClientDeleted { .. } => "client_deleted"@,
        DomainEvent::ClientTokenIssued { .. } => "client_token_issued"@,
        DomainEvent::GrantIssued { .. } => "grant_issued"@,
        DomainEvent::GrantRevoked { .. } => "grant_revoked"@,
        DomainEvent::ClientGrantsUpdated { .. } => "client_grants_updated"@,
        DomainEvent::GatewayStarted { .. } => "gateway_started"@,
        DomainEvent::GatewayStopped => "gateway_stopped"@,
        DomainEvent::ToolsChanged { .. } => "tools_changed"@,
        DomainEvent::PromptsChanged { .. } => "prompts_changed"@,
        DomainEvent::ResourcesChanged { .. } => "resources_changed"@,
        DomainEvent::ServerAuthRequired { .. } => "server_auth_required"@,
    }
}

/// Whether an event can change the tools, prompts or resources a client
/// sees: a status change to Connected, Refreshing or Disconnected, a feature
/// refresh, a grant change, a feature set membership change, or a backend's
/// list-changed notification.
pub open spec fn affects_capabilities(e: DomainEvent) -> bool {
    match e {
        DomainEvent::ServerStatusChanged { status, .. } => status == ConnectionStatus::Connected
            || status == ConnectionStatus::Refreshing || status == ConnectionStatus::Disconnected,
        DomainEvent::ServerFeaturesRefreshed { .. } => true,
        DomainEvent::GrantIssued { .. } => true,
        DomainEvent::GrantRevoked { .. } => true,
        DomainEvent::ClientGrantsUpdated { .. } => true,
        DomainEvent::FeatureSetMembersChanged { .. } => true,
        DomainEvent::ToolsChanged { .. } => true,
        DomainEvent::PromptsChanged { .. } => true,
        DomainEvent::ResourcesChanged { .. } => true,
        _ => false,
    }
}

/// The space an event is scoped to: its space, or the space activated.
pub open spec fn event_space(e: DomainEvent) -> Option<u128> {
    match e {
        DomainEvent::SpaceCreated { space_id, .. } => Some(space_id),
        DomainEvent::SpaceUpdated { space_id, .. } => Some(space_id),
        DomainEvent::SpaceDeleted { space_id } => Some(space_id),
        DomainEvent::SpaceActivated { to_space_id, .. } => Some(to_space_id),
        DomainEvent::ServerInstalled { space_id, .. } => Some(space_id),
        DomainEvent::ServerUninstalled { space_id, .. } => Some(space_id),
        DomainEvent::ServerConfigUpdated { space_id, .. } => Some(space_id),
        DomainEvent::ServerEnabled { space_id, .. } => Some(space_id),
        DomainEvent::ServerDisabled { space_id, .. } => Some(space_id),
        DomainEvent::ServerStatusChanged { space_id, .. } => Some(space_id),
        DomainEvent::ServerAuthProgress { space_id, .. } => Some(space_id),
        DomainEvent::ServerFeaturesRefreshed { space_id, .. } => Some(space_id),
        DomainEvent::FeatureSetCreated { space_id, .. } => Some(space_id),
        DomainEvent::FeatureSetUpdated { space_id, .. } => Some(space_id),
        DomainEvent::FeatureSetDeleted { space_id, .. } => Some(space_id),
        DomainEvent::FeatureSetMembersChanged { space_id, .. } => Some(space_id),
        DomainEvent::GrantIssued { space_id, .. } => Some(space_id),
        DomainEvent::GrantRevoked { space_id, .. } => Some(space_id),
        DomainEvent::ClientGrantsUpdated { space_id, .. } => Some(space_id),
        DomainEvent::ToolsChanged { space_id, .. } => Some(space_id),
        DomainEvent::PromptsChanged { space_id, .. } => Some(space_id),
        DomainEvent::ResourcesChanged { space_id, .. } => Some(space_id),
        DomainEvent::ServerAuthRequired { space_id, .. } => Some(space_id),
        _ => None,
    }
}

/// The server an event is scoped to.
pub open spec fn event_server(e: DomainEvent) -> Option<String> {
    match e {
        DomainEvent::ServerInstalled { server_id, .. } => Some(server_id),
        DomainEvent::ServerUninstalled { server_id, .. } => Some(server_id),
        DomainEvent::ServerConfigUpdated { server_id, .. } => Some(server_id),
        DomainEvent::ServerEnabled { server_id, .. } => Some(server_id),
        DomainEvent::ServerDisabled { server_id, .. } => Some(server_id),
        DomainEvent::ServerStatusChanged { server_id, .. } => Some(server_id),
        DomainEvent::ServerAuthProgress { server_id, .. } => Some(server_id),
        DomainEvent::ServerFeaturesRefreshed { server_id, .. } => Some(server_id),
        DomainEvent::ToolsChanged { server_id, .. } => Some(server_id),
        DomainEvent::PromptsChanged { server_id, .. } => Some(server_id),
        DomainEvent::ResourcesChanged { server_id, .. } => Some(server_id),
        DomainEvent::ServerAuthRequired { server_id, .. } => Some(server_id),
        _ => None,
    }
}

/// The client an event is scoped to.
pub open spec fn event_client(e: DomainEvent) -> Option<String> {
    match e {
        DomainEvent::ClientRegistered { client_id, .. } => Some(client_id),
        DomainEvent::ClientUpdated { client_id } => Some(client_id),
        DomainEvent::ClientDeleted { client_id } => Some(client_id),
        DomainEvent::ClientTokenIssued { client_id } => Some(client_id),
        DomainEvent::GrantIssued { client_id, .. } => Some(client_id),
        DomainEvent::GrantRevoked { client_id, .. } => Some(client_id),
        DomainEvent::ClientGrantsUpdated { client_id, .. } => Some(client_id),
        _ => None,
    }
}

/// The feature set an event is scoped to.
pub open spec fn event_feature_set(e: DomainEvent) -> Option<String> {
    match e {
        DomainEvent::FeatureSetCreated { feature_set_id, .. } => Some(feature_set_id),
        DomainEvent::FeatureSetUpdated { feature_set_id, .. } => Some(feature_set_id),
        DomainEvent::FeatureSetDeleted { feature_set_id, .. } => Some(feature_set_id),
        DomainEvent::FeatureSetMembersChanged { feature_set_id, .. } => Some(feature_set_id),
        DomainEvent::GrantIssued { feature_set_id, .. } => Some(feature_set_id),
        DomainEvent::GrantRevoked { feature_set_id, .. } => Some(feature_set_id),
        _ => None,
    }
}

/// The view of an optional borrowed string.
pub open spec fn opt_str_view(s: Option<&str>) -> Option<Seq<char>> {
    match s {
        Some(v) => Some(v@),
        None => None,
    }
}

/// The view of an optional owned string.
pub open spec fn opt_string_view(s: Option<String>) -> Option<Seq<char>> {
    match s {
        Some(v) => Some(v@),
        None => None,
    }
}

impl DomainEvent {
    /// The snake_case name of this event's kind.
    pub fn event_type_name(&self) -> (s: &'static str)
        ensures
            s@ == kind_name(*self),
    {
        match self {
            DomainEvent::SpaceCreated { .. } => "space_created",
            DomainEvent::SpaceUpdated { .. } => "space_updated",
            DomainEvent::SpaceDeleted { .. } => "space_deleted",
            DomainEvent::SpaceActivated { .. } => "space_activated",
            DomainEvent::ServerInstalled { .. } => "server_installed",
            DomainEvent::ServerUninstalled { .. } => "server_uninstalled",
            DomainEvent::ServerConfigUpdated { .. } => "server_config_updated",
            DomainEvent::ServerEnabled { .. } => "server_enabled",
            DomainEvent::ServerDisabled { .. } => "server_disabled",
            DomainEvent::ServerStatusChanged { .. } => "server_status_changed",
            DomainEvent::ServerAuthProgress { .. } => "server_auth_progress",
            DomainEvent::ServerFeaturesRefreshed { .. } => "server_features_refreshed",
            DomainEvent::FeatureSetCreated { .. } => "feature_set_created",
            DomainEvent::FeatureSetUpdated { .. } => "feature_set_updated",
            DomainEvent::FeatureSetDeleted { .. } => "feature_set_deleted",
            DomainEvent::FeatureSetMembersChanged { .. } => "feature_set_members_changed",
            DomainEvent::ClientRegistered { .. } => "client_registered",
            DomainEvent::ClientReconnected { .. } => "client_reconnected",
            DomainEvent::ClientUpdated { .. } => "client_updated",
            DomainEvent::ClientDeleted { .. } => "client_deleted",
            DomainEvent::ClientTokenIssued { .. } => "client_token_issued",
            DomainEvent::GrantIssued { .. } => "grant_issued",
            DomainEvent::GrantRevoked { .. } => "grant_revoked",
            DomainEvent::ClientGrantsUpdated { .. } => "client_grants_updated",
            DomainEvent::GatewayStarted { .. } => "gateway_started",
            DomainEvent::GatewayStopped => "gateway_stopped",
            DomainEvent::ToolsChanged { .. } => "tools_changed",
            DomainEvent::PromptsChanged { .. } => "prompts_changed",
            DomainEvent::ResourcesChanged { .. } => "resources_changed",
            DomainEvent::ServerAuthRequired { .. } => "server_auth_required",
        }
    }

    /// Whether this event can change what tools, prompts or resources a
    /// client has access to (clients are then sent list_changed).
    pub fn affects_mcp_capabilities(&self) -> (b: bool)
        ensures
            b == affects_capabilities(*self),
    {
        match self {
            DomainEvent::ServerStatusChanged { status, .. } => status.is_connected() || match status {
                ConnectionStatus::Disconnected => true,
                _ => false,
            },
            DomainEvent::ServerFeaturesRefreshed { .. } => true,
            DomainEvent::GrantIssued { .. } | DomainEvent::GrantRevoked { .. }
            | DomainEvent::ClientGrantsUpdated { .. } => true,
            DomainEvent::FeatureSetMembersChanged { .. } => true,
            DomainEvent::ToolsChanged { .. } | DomainEvent::PromptsChanged { .. }
            | DomainEvent::ResourcesChanged { .. } => true,
            _ => false,
        }
    }

    /// The space this event is scoped to, if any.
    pub fn space_id(&self) -> (r: Option<u128>)
        ensures
            r == event_space(*self),
    {
        match self {
            DomainEvent::SpaceCreated { space_id, .. } | DomainEvent::SpaceUpdated { space_id, .. }
            | DomainEvent::SpaceDeleted { space_id } | DomainEvent::ServerInstalled { space_id, .. }
            | DomainEvent::ServerUninstalled { space_id, .. }
            | DomainEvent::ServerConfigUpdated { space_id, .. }
            | DomainEvent::ServerEnabled { space_id, .. }
            | DomainEvent::ServerDisabled { space_id, .. }
            | DomainEvent::ServerStatusChanged { space_id, .. }
            | DomainEvent::ServerAuthProgress { space_id, .. }
            | DomainEvent::ServerFeaturesRefreshed { space_id, .. }
            | DomainEvent::FeatureSetCreated { space_id, .. }
            | DomainEvent::FeatureSetUpdated { space_id, .. }
            | DomainEvent::FeatureSetDeleted { space_id, .. }
            | DomainEvent::FeatureSetMembersChanged { space_id, .. }
            | DomainEvent::GrantIssued { space_id, .. } | DomainEvent::GrantRevoked { space_id, .. }
            | DomainEvent::ClientGrantsUpdated { space_id, .. }
            | DomainEvent::ToolsChanged { space_id, .. }
            | DomainEvent::PromptsChanged { space_id, .. }
            | DomainEvent::ResourcesChanged { space_id, .. }
            | DomainEvent::ServerAuthRequired { space_id, .. } => Some(*space_id),
            DomainEvent::SpaceActivated { to_space_id, .. } => Some(*to_space_id),
            _ => None,
        }
    }

    /// The server this event is scoped to, if any.
    pub fn server_id(&self) -> (r: Option<&str>)
        ensures
            opt_str_view(r) == opt_string_view(event_server(*self)),
    {
        match self {
            DomainEvent::ServerInstalled { server_id, .. }
            | DomainEvent::ServerUninstalled { server_id, .. }
            | DomainEvent::ServerConfigUpdated { server_id, .. }
            | DomainEvent::ServerEnabled { server_id, .. }
            | DomainEvent::ServerDisabled { server_id, .. }
            | DomainEvent::ServerStatusChanged { server_id, .. }
            | DomainEvent::ServerAuthProgress { server_id, .. }
            | DomainEvent::ServerFeaturesRefreshed { server_id, .. }
            | DomainEvent::ToolsChanged { server_id, .. }
            | DomainEvent::PromptsChanged { server_id, .. }
            | DomainEvent::ResourcesChanged { server_id, .. }
            | DomainEvent::ServerAuthRequired { server_id, .. } => Some(server_id.as_str()),
            _ => None,
        }
    }

    /// The client this event is scoped to, if any.
    pub fn client_id(&self) -> (r: Option<&str>)
        ensures
            opt_str_view(r) == opt_string_view(event_client(*self)),
    {
        match self {
            DomainEvent::ClientRegistered { client_id, .. } | DomainEvent::ClientUpdated { client_id }
            | DomainEvent::ClientDeleted { client_id } | DomainEvent::ClientTokenIssued { client_id }
            | DomainEvent::GrantIssued { client_id, .. } | DomainEvent::GrantRevoked { client_id, .. }
            | DomainEvent::ClientGrantsUpdated { client_id, .. } => Some(client_id.as_str()),
            _ => None,
        }
    }

    /// The feature set this event is scoped to, if any.
    pub fn feature_set_id(&self) -> (r: Option<&str>)
        ensures
            opt_str_view(r) == opt_string_view(event_feature_set(*self)),
    {
        match self {
            DomainEvent::FeatureSetCreated { feature_set_id, .. }
            | DomainEvent::FeatureSetUpdated { feature_set_id, .. }
            | DomainEvent::FeatureSetDeleted { feature_set_id, .. }
            | DomainEvent::FeatureSetMembersChanged { feature_set_id, .. }
            | DomainEvent::GrantIssued { feature_set_id, .. }
            | DomainEvent::GrantRevoked { feature_set_id, .. } => Some(feature_set_id.as_str()),
            _ => None,
        }
    }

    /// Whether this event concerns the UI only (it changes nothing MCP
    /// clients see).
    pub fn is_ui_only(&self) -> (b: bool)
        ensures
            b == !affects_capabilities(*self),
    {
        !self.affects_mcp_capabilities()
    }
}

/// An event with its ID, time (seconds since the UNIX epoch) and optional
/// correlation ID, for audit logging.
#[derive(Debug, Clone)]
pub struct DomainEventEnvelope {
    /// Unique event ID
    pub event_id: u128,
    /// When the event occurred
    pub timestamp: u64,
    /// The event
    pub event: DomainEvent,
    /// Correlation ID for tracking related events
    pub correlation_id: Option<u128>,
}

impl DomainEventEnvelope {
    /// Wraps an event with a fresh random ID and the current time, without a
    /// correlation ID.
    pub fn new(event: DomainEvent) -> (r: Self)
        ensures
            r.event == event,
            r.correlation_id is None,
    {
        DomainEventEnvelope {
            event_id: new_uuid_u128(),
            timestamp: now_epoch_secs(),
            event,
            correlation_id: None,
        }
    }

    /// This envelope with the given correlation ID.
    pub fn with_correlation_id(self, id: u128) -> (r: Self)
        ensures
            r.event == self.event && r.event_id == self.event_id && r.timestamp == self.timestamp,
            r.correlation_id == Some(id),
    {
        DomainEventEnvelope { correlation_id: Some(id), ..self }
    }
}

} // verus!
