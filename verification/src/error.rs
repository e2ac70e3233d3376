//! What can go wrong, and how it is worded for the user.

use vstd::prelude::*;
use vstd::string::*;
use crate::text::{decimal_digits, decimal_text};

verus! {

/// The signal whose delivery failed.
#[derive(Debug, Clone, Copy, PartialEq, Eq, Structural)]
pub enum SignalKind {
    /// The request to terminate.
    Terminate,
    /// The unconditional kill.
    Kill,
}

/// An error of the supervisor.
#[derive(Debug, Clone, PartialEq, Eq)]
pub enum McpError {
    /// The configuration file could not be read.
    ConfigRead { reason: String },
    /// The configuration file is no valid JSON.
    ConfigParse { reason: String },
    /// The configuration has no object of servers.
    NoServers,
    /// The configuration is no JSON object.
    ConfigRootNotObject,
    /// The configuration holds something else than an object where the servers
    /// belong.
    ServersNotObject,
    /// The configuration could not be written as text.
    ConfigSerialize { reason: String },
    /// The configuration file could not be written.
    ConfigWrite { reason: String },
    /// The configuration of a server lacks what every server needs.
    BadServerConfig { name: String },
    /// The wanted port is taken and nothing could be reclaimed.
    PortInUse { port: u16 },
    /// The wanted port is held by a process of another application.
    PortOccupiedByForeign { port: u16, process_name: String, pid: u32 },
    /// The wanted port is still taken after its holder was killed.
    PortStillInUse { port: u16 },
    /// A signal could not be delivered.
    SignalFailed { signal: SignalKind, pid: u32, reason: String },
    /// The program of a server could not be started.
    SpawnFailed { name: String, reason: String },
    /// The transport to a remote server could not be started.
    TransportStartFailed { reason: String },
    /// The connection to a server could not be established.
    ConnectFailed { reason: String },
    /// A local server started but did not speak the protocol.
    StartFailed { name: String, stderr: String },
    /// A local server failed and its error output could not be read.
    StderrUnreadable { name: String },
    /// A local server was gone before the verification window had passed.
    QuitImmediately { name: String },
}

impl McpError {
    /// The wording of the error.
    pub open spec fn message_spec(self) -> Seq<char> {
        match self {
            McpError::ConfigRead { reason } => "Failed to read config file: "@ + reason@,
            McpError::ConfigParse { reason } => "Failed to parse config: "@ + reason@,
            McpError::NoServers => "No mcpServers found in config"@,
            McpError::ConfigRootNotObject => "Config root is not an object"@,
            McpError::ServersNotObject => "mcpServers is not an object"@,
            McpError::ConfigSerialize { reason } => "Failed to serialize config: "@ + reason@,
            McpError::ConfigWrite { reason } => "Failed to write config file: "@ + reason@,
            McpError::BadServerConfig { name } => "Failed to extract command args from config for "@
                + name@,
            McpError::PortInUse { port } => "Port "@ + decimal_digits(port as nat)
                + " is already in use. Please close the application using this port or restart Jan."@,
            McpError::PortOccupiedByForeign { port, process_name, pid } => "Port "@
                + decimal_digits(port as nat) + " is in use by another application '"@
                + process_name@ + "' (PID "@ + decimal_digits(pid as nat)
                + "). Please close that application or use a different port."@,
            McpError::PortStillInUse { port } => "Port "@ + decimal_digits(port as nat)
                + " still in use after killing process"@,
            McpError::SignalFailed { signal, pid, reason } => "Failed to send "@ + (match signal {
                SignalKind::Terminate => "SIGTERM"@,
                SignalKind::Kill => "SIGKILL"@,
            }) + " to PID "@ + decimal_digits(pid as nat) + ": "@ + reason@,
            McpError::SpawnFailed { name, reason } => "Failed to run command "@ + name@ + ": "@
                + reason@,
            McpError::TransportStartFailed { reason } => "Failed to start SSE transport: "@
                + reason@,
            McpError::ConnectFailed { reason } => "Failed to connect to server: "@ + reason@,
            McpError::StartFailed { name, stderr } => "Failed to start MCP server "@ + name@
                + ": "@ + stderr@,
            McpError::StderrUnreadable { name } => "Failed to read MCP server "@ + name@
                + " stderr"@,
            McpError::QuitImmediately { name } => "MCP server "@ + name@
                + " quit immediately after starting"@,
        }
    }

    /// The wording of the error, as the user reads it.
    pub fn message(&self) -> (r: String)
        ensures
            r@ == self.message_spec(),
    {
        match self {
            McpError::ConfigRead { reason } => {
                String::from_str("Failed to read config file: ").concat(reason.as_str())
            },
            McpError::ConfigParse { reason } => {
                String::from_str("Failed to parse config: ").concat(reason.as_str())
            },
            McpError::NoServers => String::from_str("No mcpServers found in config"),
            McpError::ConfigRootNotObject => String::from_str("Config root is not an object"),
            McpError::ServersNotObject => String::from_str("mcpServers is not an object"),
            McpError::ConfigSerialize { reason } => {
                String::from_str("Failed to serialize config: ").concat(reason.as_str())
            },
            McpError::ConfigWrite { reason } => {
                String::from_str("Failed to write config file: ").concat(reason.as_str())
            },
            McpError::BadServerConfig { name } => {
                String::from_str("Failed to extract command args from config for ").concat(
                    name.as_str(),
                )
            },
            McpError::PortInUse { port } => {
                let mut r = String::from_str("Port ");
                r.append(decimal_text(*port as u64).as_str());
                r.append(
                    " is already in use. Please close the application using this port or restart Jan.",
                );
                r
            },
            McpError::PortOccupiedByForeign { port, process_name, pid } => {
                let mut r = String::from_str("Port ");
                r.append(decimal_text(*port as u64).as_str());
                r.append(" is in use by another application '");
                r.append(process_name.as_str());
                r.append("' (PID ");
                r.append(decimal_text(*pid as u64).as_str());
                r.append("). Please close that application or use a different port.");
                r
            },
            McpError::PortStillInUse { port } => {
                let mut r = String::from_str("Port ");
                r.append(decimal_text(*port as u64).as_str());
                r.append(" still in use after killing process");
                r
            },
            McpError::SignalFailed { signal, pid, reason } => {
                let mut r = String::from_str("Failed to send ");
                match signal {
                    SignalKind::Terminate => r.append("SIGTERM"),
                    SignalKind::Kill => r.append("SIGKILL"),
                }
                r.append(" to PID ");
                r.append(decimal_text(*pid as u64).as_str());
                r.append(": ");
                r.append(reason.as_str());
                r
            },
            McpError::SpawnFailed { name, reason } => {
                let mut r = String::from_str("Failed to run command ");
                r.append(name.as_str());
                r.append(": ");
                r.append(reason.as_str());
                r
            },
            McpError::TransportStartFailed { reason } => {
                String::from_str("Failed to start SSE transport: ").concat(reason.as_str())
            },
            McpError::ConnectFailed { reason } => {
                String::from_str("Failed to connect to server: ").concat(reason.as_str())
            },
            McpError::StartFailed { name, stderr } => {
                let mut r = String::from_str("Failed to start MCP server ");
                r.append(name.as_str());
                r.append(": ");
                r.append(stderr.as_str());
                r
            },
            McpError::StderrUnreadable { name } => {
                let mut r = String::from_str("Failed to read MCP server ");
                r.append(name.as_str());
                r.append(" stderr");
                r
            },
            McpError::QuitImmediately { name } => {
                let mut r = String::from_str("MCP server ");
                r.append(name.as_str());
                r.append(" quit immediately after starting");
                r
            },
        }
    }
}

} // verus!
