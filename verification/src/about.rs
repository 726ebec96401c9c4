//! How the server presents itself to its clients.

use rmcp::model::{ProtocolVersion, ServerCapabilities};
use vstd::prelude::*;

verus! {

/// How a server offers its tools.
#[derive(Debug, Clone, Copy, PartialEq, Eq, Structural)]
pub struct ToolsOffer {
    /// Whether clients are told of changes to the list of tools, where the server says so.
    pub list_changed: Option<bool>,
}

/// What a server offers to its clients.
#[derive(Debug, Clone, Copy, PartialEq, Eq)]
pub struct Capabilities {
    pub experimental: bool,
    pub logging: bool,
    pub completions: bool,
    pub prompts: bool,
    pub resources: bool,
    pub tools: Option<ToolsOffer>,
}

/// What a client learns about the server when it connects.
#[derive(Debug, PartialEq, Eq)]
pub struct ServerDescription {
    pub protocol_version: String,
    pub capabilities: Capabilities,
    pub name: String,
    pub version: String,
    pub title: Option<String>,
    /// The addresses of the server's icons.
    pub icons: Option<Vec<String>>,
    pub website_url: Option<String>,
    pub instructions: Option<String>,
}

/// What a client has to know before it uses the tools.
pub const INSTRUCTIONS: &'static str = "You must be aware of current studio mode before using any tools, infer the mode from conversation context or get_studio_mode.
Do NOT use run_code unless the user explicitly asks you to run code or query something in Studio. Never call run_code proactively to move the camera, teleport the player, or perform actions the user did not request. run_code is for read-only inspection of the live datamodel only — to make permanent changes, edit the user's local source code instead.
After calling run_script_in_play_mode, the datamodel status will be reset to stop mode.
Prefer using start_stop_play tool instead of run_script_in_play_mode. Only use run_script_in_play_mode to run one-time unit test code on the server datamodel.
";

/// `ProtocolVersion::LATEST`, as a text: the version of the protocol from March 2025.
#[verifier::external_body]
fn latest_protocol_version() -> (version: String)
    ensures
        version@ == "2025-03-26"@,
{
    ProtocolVersion::LATEST.to_string()
}

/// `enable_tools` on the builder of `ServerCapabilities`: tools are offered, in the default way,
/// which says nothing of changes to their list, and nothing else is.
#[verifier::external_body]
fn tools_alone() -> (offered: Capabilities)
    ensures
        offered == (Capabilities {
            experimental: false,
            logging: false,
            completions: false,
            prompts: false,
            resources: false,
            tools: Some(ToolsOffer { list_changed: None }),
        }),
{
    let built = ServerCapabilities::builder().enable_tools().build();
    Capabilities {
        experimental: built.experimental.is_some(),
        logging: built.logging.is_some(),
        completions: built.completions.is_some(),
        prompts: built.prompts.is_some(),
        resources: built.resources.is_some(),
        tools: built.tools.map(|tools| ToolsOffer { list_changed: tools.list_changed }),
    }
}

/// The description of this server in the given version: it speaks the latest version of the
/// protocol and offers tools alone.
pub fn get_info(version: &str) -> (info: ServerDescription)
    ensures
        info.protocol_version@ == "2025-03-26"@,
        info.capabilities == (Capabilities {
            experimental: false,
            logging: false,
            completions: false,
            prompts: false,
            resources: false,
            tools: Some(ToolsOffer { list_changed: None }),
        }),
        info.name@ == "Roblox_Studio"@,
        info.version@ == version@,
        info.title matches Some(title) && title@ == "Roblox Studio MCP Server"@,
        info.icons is None,
        info.website_url is None,
        info.instructions matches Some(text) && text@ == INSTRUCTIONS@ && text@
            == "You must be aware of current studio mode before using any tools, infer the mode from conversation context or get_studio_mode.
Do NOT use run_code unless the user explicitly asks you to run code or query something in Studio. Never call run_code proactively to move the camera, teleport the player, or perform actions the user did not request. run_code is for read-only inspection of the live datamodel only — to make permanent changes, edit the user's local source code instead.
After calling run_script_in_play_mode, the datamodel status will be reset to stop mode.
Prefer using start_stop_play tool instead of run_script_in_play_mode. Only use run_script_in_play_mode to run one-time unit test code on the server datamodel.
"@,
{
    ServerDescription {
        protocol_version: latest_protocol_version(),
        capabilities: tools_alone(),
        name: "Roblox_Studio".to_string(),
        version: version.to_string(),
        title: Some("Roblox Studio MCP Server".to_string()),
        icons: None,
        website_url: None,
        instructions: Some(INSTRUCTIONS.to_string()),
    }
}

} // verus!
