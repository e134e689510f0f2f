//! How the server presents itself to its clients.

use rmcp::model::Icon;
use vstd::prelude::*;

verus! {

/// `rmcp::model::Icon`: a picture that a client may show.
#[verifier::external_type_specification]
#[verifier::external_body]
pub struct ExIcon(rmcp::model::Icon);

/// The name, and the title, of a server whose configuration gives none.
pub const DEFAULT_NAME: &'static str = "Apollo MCP Server";

/// The version of a server whose configuration gives none: the version of this package.
pub const DEFAULT_VERSION: &'static str = "1.0.0";

/// The web site of a server whose configuration gives none.
pub const DEFAULT_WEBSITE_URL: &'static str =
    "https://www.apollographql.com/docs/apollo-mcp-server";

/// The description of a server whose configuration gives none.
pub const DEFAULT_DESCRIPTION: &'static str =
    "A Model Context Protocol (MCP) server for exposing GraphQL APIs as tools.";

/// What the configuration says of how the server presents itself.
pub struct ServerInfoConfig {
    pub name: Option<String>,
    pub version: Option<String>,
    pub title: Option<String>,
    pub website_url: Option<String>,
    pub description: Option<String>,
}

/// A configured text, or the text that stands in for it.
pub open spec fn text_or(configured: Option<String>, default: Seq<char>) -> Seq<char> {
    match configured {
        Some(text) => text@,
        None => default,
    }
}

fn configured_or<'a>(configured: &'a Option<String>, default: &'a str) -> (r: &'a str)
    ensures
        r@ == text_or(*configured, default@),
{
    match configured {
        Some(text) => text.as_str(),
        None => default,
    }
}

impl Default for ServerInfoConfig {
    fn default() -> (r: Self)
        ensures
            r.name is None,
            r.version is None,
            r.title is None,
            r.website_url is None,
            r.description is None,
    {
        ServerInfoConfig {
            name: None,
            version: None,
            title: None,
            website_url: None,
            description: None,
        }
    }
}

impl ServerInfoConfig {
    /// The name of the server.
    pub fn name(&self) -> (r: &str)
        ensures
            r@ == text_or(self.name, DEFAULT_NAME@),
    {
        configured_or(&self.name, DEFAULT_NAME)
    }

    /// The version of the server.
    pub fn version(&self) -> (r: &str)
        ensures
            r@ == text_or(self.version, DEFAULT_VERSION@),
    {
        configured_or(&self.version, DEFAULT_VERSION)
    }

    /// The title of the server.
    pub fn title(&self) -> (r: Option<&str>)
        ensures
            r matches Some(title) && title@ == text_or(self.title, DEFAULT_NAME@),
    {
        Some(configured_or(&self.title, DEFAULT_NAME))
    }

    /// The web site of the server.
    pub fn website_url(&self) -> (r: Option<&str>)
        ensures
            r matches Some(url) && url@ == text_or(self.website_url, DEFAULT_WEBSITE_URL@),
    {
        Some(configured_or(&self.website_url, DEFAULT_WEBSITE_URL))
    }

    /// The description of the server.
    pub fn description(&self) -> (r: Option<&str>)
        ensures
            r matches Some(text) && text@ == text_or(self.description, DEFAULT_DESCRIPTION@),
    {
        Some(configured_or(&self.description, DEFAULT_DESCRIPTION))
    }
}

/// The server as it names itself to a client.
pub struct Implementation {
    pub name: String,
    pub title: Option<String>,
    pub version: String,
    pub description: Option<String>,
    pub icons: Option<Vec<Icon>>,
    pub website_url: Option<String>,
}

/// What the server promises of its tools.
pub struct ToolsCapability {
    /// Whether clients are told when the list of tools changes.
    pub list_changed: Option<bool>,
}

/// What the server promises of its resources.
pub struct ResourcesCapability {
    pub subscribe: Option<bool>,
    pub list_changed: Option<bool>,
}

/// What the server offers its clients.
pub struct ServerCapabilities {
    pub tools: Option<ToolsCapability>,
    pub resources: Option<ResourcesCapability>,
}

/// What the server tells a client of itself.
pub struct ServerInfo {
    pub server_info: Implementation,
    pub capabilities: ServerCapabilities,
}

fn owned(text: Option<&str>) -> (r: Option<String>)
    ensures
        r is Some <==> text is Some,
        r is Some ==> r->0@ == text->0@,
{
    match text {
        Some(text) => Some(text.to_owned()),
        None => None,
    }
}

/// Whether the server names itself as it is configured to.
pub open spec fn presents(config: ServerInfoConfig, named: Implementation) -> bool {
    &&& named.name@ == text_or(config.name, DEFAULT_NAME@)
    &&& named.version@ == text_or(config.version, DEFAULT_VERSION@)
    &&& named.title is Some
    &&& named.title->0@ == text_or(config.title, DEFAULT_NAME@)
    &&& named.website_url is Some
    &&& named.website_url->0@ == text_or(config.website_url, DEFAULT_WEBSITE_URL@)
    &&& named.description is Some
    &&& named.description->0@ == text_or(config.description, DEFAULT_DESCRIPTION@)
    &&& named.icons is None
}

/// Whether this is what a server offers: tools whose changes are announced and, where it has apps,
/// resources.
pub open spec fn offers(has_apps: bool, capabilities: ServerCapabilities) -> bool {
    &&& capabilities.tools == Some(ToolsCapability { list_changed: Some(true) })
    &&& capabilities.resources == (if has_apps {
        Some(ResourcesCapability { subscribe: None, list_changed: None })
    } else {
        None
    })
}

/// What a server with this configuration tells its clients of itself.
pub fn server_info(config: &ServerInfoConfig, has_apps: bool) -> (r: ServerInfo)
    ensures
        presents(*config, r.server_info),
        offers(has_apps, r.capabilities),
{
    let resources = if has_apps {
        Some(ResourcesCapability { subscribe: None, list_changed: None })
    } else {
        None
    };
    ServerInfo {
        server_info: Implementation {
            name: config.name().to_owned(),
            title: owned(config.title()),
            version: config.version().to_owned(),
            description: owned(config.description()),
            icons: None,
            website_url: owned(config.website_url()),
        },
        capabilities: ServerCapabilities {
            tools: Some(ToolsCapability { list_changed: Some(true) }),
            resources,
        },
    }
}

} // verus!
