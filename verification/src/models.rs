//! The records that travel between the supervisor, the servers and the user
//! interface.

use vstd::prelude::*;
use core::time::Duration;
use serde_json::Value;

verus! {

/// A request of a server for input from the user, as the user interface
/// receives it.
#[derive(Debug, Clone, PartialEq, Eq)]
pub struct ElicitRequest {
    /// The identifier that the reply must carry.
    pub id: String,
    /// The name of the server that asks.
    pub server: String,
    /// The message shown to the user.
    pub message: String,
    /// The JSON schema of the expected answer.
    pub requested_schema: Value,
}

/// What the user chose to do with an elicitation request.
#[derive(Debug, Clone, Copy, PartialEq, Eq, Structural)]
pub enum ElicitAction {
    /// The user submitted the form.
    Accept,
    /// The user declined explicitly.
    Decline,
    /// The user dismissed the request without choosing.
    Cancel,
}

/// The reply of the user interface to an elicitation request.
#[derive(Debug, Clone, PartialEq, Eq)]
pub struct ElicitResponse {
    /// What the user did.
    pub action: ElicitAction,
    /// What the user submitted; it counts only together with `Accept`.
    pub content: Option<Value>,
}

/// One message of a sampling conversation.
#[derive(Debug, Clone)]
pub struct SamplingMessage {
    /// Who speaks.
    pub role: String,
    /// What is said.
    pub content: SamplingContent,
}

/// The content of a sampling message.
#[derive(Debug, Clone)]
pub enum SamplingContent {
    /// Plain text.
    Text { text: String },
    /// An image, encoded, with its media type.
    Image { data: String, mime_type: String },
    /// A resource of the server.
    Resource { resource: ResourceContent },
}

/// A resource inside a sampling message.
#[derive(Debug, Clone)]
pub struct ResourceContent {
    /// Where the resource lives.
    pub uri: String,
    /// Its media type, if known.
    pub mime_type: Option<String>,
    /// Its text, if it has any.
    pub text: Option<String>,
}

/// A hint for the choice of a model.
#[derive(Debug, Clone)]
pub struct ModelHint {
    /// A name, or part of one, of the wanted model.
    pub name: Option<String>,
}

/// The answer to a sampling request.
#[derive(Debug, Clone)]
pub struct SamplingResponse {
    /// The generated message.
    pub message: SamplingMessage,
    /// The model that produced it.
    pub model: String,
    /// Why generation stopped, if known.
    pub stop_reason: Option<String>,
}

/// What the user chose to do with a sampling request.
#[derive(Debug, Clone, Copy, PartialEq, Eq, Structural)]
pub enum SamplingAction {
    /// The user let the model answer.
    Accept,
    /// The user declined.
    Decline,
    /// The user cancelled the request.
    Cancel,
}

/// What the supervisor reads from the configuration of one server.
#[derive(Debug, Clone, PartialEq, Eq)]
pub struct McpServerConfig {
    /// The declared transport: `stdio`, `sse` or `http`; none means stdio.
    pub transport_type: Option<String>,
    /// The endpoint of a remote server.
    pub url: Option<String>,
    /// The program of a local server.
    pub command: String,
    /// The arguments of the program, as the configuration lists them.
    pub args: Vec<Value>,
    /// The environment of the program.
    pub envs: serde_json::Map<String, Value>,
    /// The connect timeout of a remote server.
    pub timeout: Option<Duration>,
    /// The request headers for a remote server.
    pub headers: serde_json::Map<String, Value>,
}

/// A tool together with the server that offers it.
#[derive(Debug, Clone)]
pub struct ToolWithServer {
    /// The name of the tool.
    pub name: String,
    /// What the tool does.
    pub description: Option<String>,
    /// The JSON schema of the tool's input.
    pub input_schema: Value,
    /// The server that offers the tool.
    pub server: String,
}

/// One header that is sent to a remote model provider.
#[derive(Debug, Clone)]
pub struct ProviderCustomHeader {
    /// The name of the header.
    pub header: String,
    /// Its value.
    pub value: String,
}

impl Default for ProviderCustomHeader {
    fn default() -> (r: ProviderCustomHeader)
        ensures
            r.header@.len() == 0,
            r.value@.len() == 0,
    {
        ProviderCustomHeader { header: String::new(), value: String::new() }
    }
}

/// The configuration of a remote model provider.
#[derive(Debug, Clone)]
pub struct ProviderConfig {
    /// The name of the provider.
    pub provider: String,
    /// The key that authenticates against it.
    pub api_key: Option<String>,
    /// The address of its API.
    pub base_url: Option<String>,
    /// Headers to send along.
    pub custom_headers: Vec<ProviderCustomHeader>,
    /// The models it offers.
    pub models: Vec<String>,
    /// Whether the provider is enabled.
    pub active: bool,
}

impl Default for ProviderConfig {
    fn default() -> (r: ProviderConfig)
        ensures
            r.provider@.len() == 0,
            r.api_key is None,
            r.base_url is None,
            r.custom_headers@.len() == 0,
            r.models@.len() == 0,
            !r.active,
    {
        ProviderConfig {
            provider: String::new(),
            api_key: None,
            base_url: None,
            custom_headers: Vec::new(),
            models: Vec::new(),
            active: false,
        }
    }
}

} // verus!
