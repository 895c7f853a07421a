//! The unified runtime model of an MCP server: its definition, transport,
//! inputs, authentication and registry metadata.

use vstd::prelude::*;

use crate::feature::copy_opt;
use crate::text::owned;
use crate::uri::opt_view;

verus! {

/// Server icon: one URL or emoji for every theme, or a light/dark pair.
#[derive(Debug, Clone)]
pub enum ServerIcon {
    /// Single icon used for all themes (URL or emoji)
    Single(String),
    /// Separate icons for light and dark themes
    Themed { light: String, dark: String },
}

/// The icon for a theme.
pub open spec fn icon_for(icon: ServerIcon, dark: bool) -> Seq<char> {
    match icon {
        ServerIcon::Single(s) => s@,
        ServerIcon::Themed { light, dark: d } => if dark {
            d@
        } else {
            light@
        },
    }
}

impl ServerIcon {
    /// An exact copy of this icon.
    pub fn duplicate(&self) -> (r: Self)
        ensures
            r == *self,
    {
        match self {
            ServerIcon::Single(s) => ServerIcon::Single(s.clone()),
            ServerIcon::Themed { light, dark } => ServerIcon::Themed {
                light: light.clone(),
                dark: dark.clone(),
            },
        }
    }

    /// The icon for the given theme (dark or light).
    pub fn resolve(&self, dark: bool) -> (r: &str)
        ensures
            r@ == icon_for(*self, dark),
    {
        match self {
            ServerIcon::Single(s) => s.as_str(),
            ServerIcon::Themed { light, dark: d } => {
                if dark {
                    d.as_str()
                } else {
                    light.as_str()
                }
            },
        }
    }
}

/// The canonical internal representation of every server.
#[derive(Debug, Clone)]
pub struct ServerDefinition {
    /// Unique identifier (e.g., "io.github.github/github-mcp-server")
    pub id: String,
    /// Display name
    pub name: String,
    /// Optional description
    pub description: Option<String>,
    /// Optional short alias for tool prefixing (e.g., "gh")
    pub alias: Option<String>,
    /// Authentication configuration
    pub auth: Option<AuthConfig>,
    /// Optional icon
    pub icon: Option<ServerIcon>,
    /// Self-contained transport configuration, inputs included
    pub transport: TransportConfig,
    /// Registry categorization
    pub categories: Vec<String>,
    /// Publisher info
    pub publisher: Option<PublisherInfo>,
    /// Where this server came from
    pub source: ServerSource,
    /// Visual badges for trust and discovery
    pub badges: Vec<Badge>,
    /// Where the server runs
    pub hosting_type: HostingType,
    /// SPDX license identifier
    pub license: Option<String>,
    /// URL to full license text
    pub license_url: Option<String>,
    /// Installation metadata
    pub installation: Option<Installation>,
    /// MCP capabilities
    pub capabilities: Option<Capabilities>,
    /// Sponsorship information
    pub sponsored: Option<Sponsored>,
    /// Rich media content
    pub media: Option<Media>,
    /// Changelog URL
    pub changelog_url: Option<String>,
}

impl ServerDefinition {
    /// Whether the server authenticates with OAuth.
    pub fn requires_oauth(&self) -> (b: bool)
        ensures
            b == (self.auth matches Some(AuthConfig::Oauth)),
    {
        match &self.auth {
            Some(AuthConfig::Oauth) => true,
            _ => false,
        }
    }
}

/// Where a server definition came from.
#[derive(Debug, Clone)]
pub enum ServerSource {
    /// Loaded from a user-defined JSON file in the spaces directory
    UserSpace { space_id: String, file_path: String },
    /// Loaded from the bundled registry
    Bundled,
    /// Loaded from a remote or custom registry
    Registry { url: String, name: String },
}

impl Default for ServerSource {
    fn default() -> (r: Self)
        ensures
            r is Bundled,
    {
        ServerSource::Bundled
    }
}

/// Kind of transport.
#[derive(Debug, Clone, Copy, PartialEq, Eq, Structural)]
pub enum TransportType {
    /// Child process over stdin/stdout
    Stdio,
    /// Streamable HTTP
    Http,
}

/// How to reach a server. Environment variables and headers are ordered
/// (name, value) pairs.
#[derive(Debug, Clone)]
pub enum TransportConfig {
    /// Child process
    Stdio {
        command: String,
        args: Vec<String>,
        env: Vec<(String, String)>,
        metadata: TransportMetadata,
    },
    /// Remote HTTP endpoint
    Http { url: String, headers: Vec<(String, String)>, metadata: TransportMetadata },
}

/// The metadata of a transport.
pub open spec fn transport_metadata(t: TransportConfig) -> TransportMetadata {
    match t {
        TransportConfig::Stdio { metadata, .. } => metadata,
        TransportConfig::Http { metadata, .. } => metadata,
    }
}

impl TransportConfig {
    /// The metadata of this transport.
    pub fn metadata(&self) -> (m: &TransportMetadata)
        ensures
            *m == transport_metadata(*self),
    {
        match self {
            TransportConfig::Stdio { metadata, .. } => metadata,
            TransportConfig::Http { metadata, .. } => metadata,
        }
    }
}

/// Inputs required by a transport.
#[derive(Debug, Clone)]
pub struct TransportMetadata {
    /// Inputs required by this transport
    pub inputs: Vec<InputDefinition>,
}

impl Default for TransportMetadata {
    fn default() -> (r: Self)
        ensures
            r.inputs@.len() == 0,
    {
        TransportMetadata { inputs: Vec::new() }
    }
}

/// A value the user supplies to configure a server, referenced in the
/// transport as `${input:ID}`.
#[derive(Debug, Clone)]
pub struct InputDefinition {
    /// Input ID
    pub id: String,
    /// Label shown to the user
    pub label: String,
    /// "text", "number", "boolean", "url", ...
    pub input_type: String,
    /// Whether a value is required
    pub required: bool,
    /// Whether the value is masked
    pub secret: bool,
    /// Description
    pub description: Option<String>,
    /// Default value
    pub default: Option<String>,
    /// Placeholder text
    pub placeholder: Option<String>,
    /// Where to obtain the value
    pub obtain_url: Option<String>,
    /// How to obtain the value
    pub obtain_instructions: Option<String>,
}

/// An input definition as plain values.
pub struct InputSpec {
    /// Input ID
    pub id: Seq<char>,
    /// Label
    pub label: Seq<char>,
    /// Input type
    pub input_type: Seq<char>,
    /// Whether a value is required
    pub required: bool,
    /// Whether the value is masked
    pub secret: bool,
    /// Description
    pub description: Option<Seq<char>>,
    /// Default value
    pub default: Option<Seq<char>>,
    /// Placeholder text
    pub placeholder: Option<Seq<char>>,
    /// Where to obtain the value
    pub obtain_url: Option<Seq<char>>,
    /// How to obtain the value
    pub obtain_instructions: Option<Seq<char>>,
}

impl View for InputDefinition {
    type V = InputSpec;

    open spec fn view(&self) -> InputSpec {
        InputSpec {
            id: self.id@,
            label: self.label@,
            input_type: self.input_type@,
            required: self.required,
            secret: self.secret,
            description: opt_view(self.description),
            default: opt_view(self.default),
            placeholder: opt_view(self.placeholder),
            obtain_url: opt_view(self.obtain_url),
            obtain_instructions: opt_view(self.obtain_instructions),
        }
    }
}

/// The views of a sequence of input definitions.
pub open spec fn input_views(v: Seq<InputDefinition>) -> Seq<InputSpec> {
    v.map_values(|i: InputDefinition| i@)
}

impl InputDefinition {
    /// An exact copy of this input definition.
    pub fn duplicate(&self) -> (r: Self)
        ensures
            r == *self,
    {
        InputDefinition {
            id: self.id.clone(),
            label: self.label.clone(),
            input_type: self.input_type.clone(),
            required: self.required,
            secret: self.secret,
            description: copy_opt(&self.description),
            default: copy_opt(&self.default),
            placeholder: copy_opt(&self.placeholder),
            obtain_url: copy_opt(&self.obtain_url),
            obtain_instructions: copy_opt(&self.obtain_instructions),
        }
    }
}

/// The input type used when none is given: "text".
pub fn default_input_type() -> (r: String)
    ensures
        r@ == "text"@,
{
    owned("text")
}

/// How a server authenticates.
#[derive(Debug, Clone)]
pub enum AuthConfig {
    /// No authentication
    NoAuth,
    /// An API key is required
    ApiKey { instructions: Option<String> },
    /// An API key may be given
    OptionalApiKey { instructions: Option<String> },
    /// OAuth 2.1
    Oauth,
}

impl AuthConfig {
    /// An exact copy of this configuration.
    pub fn duplicate(&self) -> (r: Self)
        ensures
            r == *self,
    {
        match self {
            AuthConfig::NoAuth => AuthConfig::NoAuth,
            AuthConfig::ApiKey { instructions } => AuthConfig::ApiKey {
                instructions: copy_opt(instructions),
            },
            AuthConfig::OptionalApiKey { instructions } => AuthConfig::OptionalApiKey {
                instructions: copy_opt(instructions),
            },
            AuthConfig::Oauth => AuthConfig::Oauth,
        }
    }
}

/// Publisher of a server.
#[derive(Debug, Clone)]
pub struct PublisherInfo {
    /// Publisher name
    pub name: String,
    /// Publisher domain
    pub domain: Option<String>,
    /// Whether the publisher is verified
    pub verified: bool,
    /// Whether the server is official
    pub official: bool,
}

impl PublisherInfo {
    /// An exact copy of this publisher.
    pub fn duplicate(&self) -> (r: Self)
        ensures
            r == *self,
    {
        PublisherInfo {
            name: self.name.clone(),
            domain: copy_opt(&self.domain),
            verified: self.verified,
            official: self.official,
        }
    }
}

/// Visual badge indicators for server listings.
#[derive(Debug, Clone, Copy, PartialEq, Eq, Structural)]
pub enum Badge {
    /// Published by the service owner
    Official,
    /// Verified publisher
    Verified,
    /// Featured listing
    Featured,
    /// Sponsored listing
    Sponsored,
    /// Popular server
    Popular,
}

/// Where the server runs.
#[derive(Debug, Clone, Copy, PartialEq, Eq, Structural)]
pub enum HostingType {
    /// On this machine
    Local,
    /// On a remote host
    Remote,
    /// Both
    Hybrid,
}

impl Default for HostingType {
    fn default() -> (r: Self)
        ensures
            r == HostingType::Local,
    {
        HostingType::Local
    }
}

/// Installation complexity level.
#[derive(Debug, Clone, Copy, PartialEq, Eq, Structural)]
pub enum InstallDifficulty {
    /// Easy
    Easy,
    /// Moderate
    Moderate,
    /// Advanced
    Advanced,
}

/// Installation metadata for user guidance.
#[derive(Debug, Clone)]
pub struct Installation {
    /// How hard installation is
    pub difficulty: Option<InstallDifficulty>,
    /// What must be installed first
    pub prerequisites: Vec<String>,
    /// Estimated installation time
    pub estimated_time: Option<String>,
}

/// MCP capabilities with read-only mode support.
#[derive(Debug, Clone, Copy, PartialEq, Eq, Structural)]
pub struct Capabilities {
    /// Offers tools
    pub tools: bool,
    /// Offers resources
    pub resources: bool,
    /// Offers prompts
    pub prompts: bool,
    /// Has a read-only mode
    pub read_only_mode: bool,
}

impl Default for Capabilities {
    fn default() -> (r: Self)
        ensures
            !r.tools && !r.resources && !r.prompts && !r.read_only_mode,
    {
        Capabilities { tools: false, resources: false, prompts: false, read_only_mode: false }
    }
}

/// Sponsorship information for commercial listings.
#[derive(Debug, Clone)]
pub struct Sponsored {
    /// Whether the sponsorship is active
    pub enabled: bool,
    /// Sponsor name
    pub sponsor_name: Option<String>,
    /// Sponsor URL
    pub sponsor_url: Option<String>,
    /// Sponsor logo
    pub sponsor_logo: Option<String>,
    /// Campaign identifier
    pub campaign_id: Option<String>,
}

/// Rich media content for enhanced discovery.
#[derive(Debug, Clone)]
pub struct Media {
    /// Screenshot URLs
    pub screenshots: Vec<String>,
    /// Demo video URL
    pub demo_video: Option<String>,
    /// Banner URL
    pub banner: Option<String>,
}

} // verus!
