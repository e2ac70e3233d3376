//! Runtime settings of the supervisor.

use vstd::prelude::*;
use core::time::Duration;
use serde_json::Value;
use crate::json::{json_count, json_member, json_object, member};
use crate::time::{duration_millis, duration_of_secs};

verus! {

/// Seconds a tool call may take unless the configuration says otherwise.
pub const DEFAULT_MCP_TOOL_CALL_TIMEOUT_SECS: u64 = 30;

/// Milliseconds before the first restart unless the configuration says
/// otherwise.
pub const DEFAULT_MCP_BASE_RESTART_DELAY_MS: u64 = 1000;

/// The longest wait between restarts unless the configuration says otherwise.
pub const DEFAULT_MCP_MAX_RESTART_DELAY_MS: u64 = 30000;

/// The factor between consecutive restart delays, in thousandths, unless the
/// configuration says otherwise: a doubling.
pub const DEFAULT_MCP_BACKOFF_MULTIPLIER_PERMILLE: u64 = 2000;

/// The default for `McpSettings::tool_call_timeout_seconds`.
pub fn default_tool_call_timeout_seconds() -> (r: u64)
    ensures
        r == DEFAULT_MCP_TOOL_CALL_TIMEOUT_SECS,
{
    DEFAULT_MCP_TOOL_CALL_TIMEOUT_SECS
}

/// The default for `McpSettings::base_restart_delay_ms`.
pub fn default_base_restart_delay_ms() -> (r: u64)
    ensures
        r == DEFAULT_MCP_BASE_RESTART_DELAY_MS,
{
    DEFAULT_MCP_BASE_RESTART_DELAY_MS
}

/// The default for `McpSettings::max_restart_delay_ms`.
pub fn default_max_restart_delay_ms() -> (r: u64)
    ensures
        r == DEFAULT_MCP_MAX_RESTART_DELAY_MS,
{
    DEFAULT_MCP_MAX_RESTART_DELAY_MS
}

/// The default for `McpSettings::backoff_multiplier_permille`.
pub fn default_backoff_multiplier_permille() -> (r: u64)
    ensures
        r == DEFAULT_MCP_BACKOFF_MULTIPLIER_PERMILLE,
{
    DEFAULT_MCP_BACKOFF_MULTIPLIER_PERMILLE
}

/// Settings that the user can adjust while the supervisor runs.
#[derive(Debug, Clone, Copy, PartialEq, Eq, Structural)]
pub struct McpSettings {
    /// Seconds granted to one tool call.
    pub tool_call_timeout_seconds: u64,
    /// Milliseconds before the first restart attempt.
    pub base_restart_delay_ms: u64,
    /// The cap on the wait between restart attempts, in milliseconds.
    pub max_restart_delay_ms: u64,
    /// The factor by which the wait grows from one attempt to the next, in
    /// thousandths: 2000 doubles it, 1500 adds half, 1000 keeps it.
    pub backoff_multiplier_permille: u64,
}

impl McpSettings {
    /// The settings used where the configuration gives none.
    pub open spec fn spec_default() -> McpSettings {
        McpSettings {
            tool_call_timeout_seconds: DEFAULT_MCP_TOOL_CALL_TIMEOUT_SECS,
            base_restart_delay_ms: DEFAULT_MCP_BASE_RESTART_DELAY_MS,
            max_restart_delay_ms: DEFAULT_MCP_MAX_RESTART_DELAY_MS,
            backoff_multiplier_permille: DEFAULT_MCP_BACKOFF_MULTIPLIER_PERMILLE,
        }
    }

    /// Seconds granted to one tool call, never less than one.
    pub open spec fn tool_call_timeout_secs(&self) -> u64 {
        if self.tool_call_timeout_seconds < 1 {
            1
        } else {
            self.tool_call_timeout_seconds
        }
    }

    /// The time one tool call may take: the configured seconds, and one
    /// second where the configuration says zero.
    pub fn tool_call_timeout_duration(&self) -> (d: Duration)
        ensures
            d == duration_of_secs(self.tool_call_timeout_secs()),
            duration_millis(d) == self.tool_call_timeout_secs() as nat * 1000,
    {
        let secs: u64 = if self.tool_call_timeout_seconds < 1 {
            1
        } else {
            self.tool_call_timeout_seconds
        };
        Duration::from_secs(secs)
    }

    /// Settings from what a configuration gave for each field, with the
    /// default wherever it gave nothing.
    pub fn from_parts(
        tool_call_timeout_seconds: Option<u64>,
        base_restart_delay_ms: Option<u64>,
        max_restart_delay_ms: Option<u64>,
        backoff_multiplier_permille: Option<u64>,
    ) -> (s: McpSettings)
        ensures
            s.tool_call_timeout_seconds == (match tool_call_timeout_seconds {
                Some(v) => v,
                None => DEFAULT_MCP_TOOL_CALL_TIMEOUT_SECS,
            }),
            s.base_restart_delay_ms == (match base_restart_delay_ms {
                Some(v) => v,
                None => DEFAULT_MCP_BASE_RESTART_DELAY_MS,
            }),
            s.max_restart_delay_ms == (match max_restart_delay_ms {
                Some(v) => v,
                None => DEFAULT_MCP_MAX_RESTART_DELAY_MS,
            }),
            s.backoff_multiplier_permille == (match backoff_multiplier_permille {
                Some(v) => v,
                None => DEFAULT_MCP_BACKOFF_MULTIPLIER_PERMILLE,
            }),
    {
        McpSettings {
            tool_call_timeout_seconds: match tool_call_timeout_seconds {
                Some(v) => v,
                None => default_tool_call_timeout_seconds(),
            },
            base_restart_delay_ms: match base_restart_delay_ms {
                Some(v) => v,
                None => default_base_restart_delay_ms(),
            },
            max_restart_delay_ms: match max_restart_delay_ms {
                Some(v) => v,
                None => default_max_restart_delay_ms(),
            },
            backoff_multiplier_permille: match backoff_multiplier_permille {
                Some(v) => v,
                None => default_backoff_multiplier_permille(),
            },
        }
    }
}

impl Default for McpSettings {
    fn default() -> (s: McpSettings)
        ensures
            s == McpSettings::spec_default(),
    {
        McpSettings {
            tool_call_timeout_seconds: DEFAULT_MCP_TOOL_CALL_TIMEOUT_SECS,
            base_restart_delay_ms: DEFAULT_MCP_BASE_RESTART_DELAY_MS,
            max_restart_delay_ms: DEFAULT_MCP_MAX_RESTART_DELAY_MS,
            backoff_multiplier_permille: DEFAULT_MCP_BACKOFF_MULTIPLIER_PERMILLE,
        }
    }
}

/// What a settings object says of a field that holds a whole number.
pub enum FieldRead {
    /// The object has no such member.
    Absent,
    /// The object has such a member, and it is no whole number that fits 64
    /// bits.
    Invalid,
    /// The object has such a member with this value.
    Valid(u64),
}

/// What the settings object `settings` says of its member `key`.
pub open spec fn field_read(settings: Value, key: Seq<char>) -> FieldRead {
    match json_member(settings, key) {
        None => FieldRead::Absent,
        Some(v) => match json_count(v) {
            Some(n) => FieldRead::Valid(n),
            None => FieldRead::Invalid,
        },
    }
}

/// What the settings object `settings` says of the multiplier, given how its
/// member reads in thousandths: nothing where it has no such member.
pub open spec fn multiplier_read(settings: Value, permille: Option<u64>) -> FieldRead {
    match json_member(settings, "backoffMultiplier"@) {
        None => FieldRead::Absent,
        Some(v) => match permille {
            Some(p) => FieldRead::Valid(p),
            None => FieldRead::Invalid,
        },
    }
}

/// The value of a field that was read, or `default` where it is absent.
pub open spec fn or_default(read: FieldRead, default: u64) -> u64 {
    match read {
        FieldRead::Valid(v) => v,
        _ => default,
    }
}

/// The settings that the member `mcpSettings` of a configuration gives:
/// each field that it holds, and the default for each field that it lacks.
/// Where the configuration has no such member, where the member is no
/// object, or where one of its fields is of the wrong kind, all settings are
/// the defaults. `multiplier_permille` says how the member
/// `backoffMultiplier` reads in thousandths, and is none where it is no
/// number.
pub open spec fn settings_of(config: Value, multiplier_permille: Option<u64>) -> McpSettings {
    match json_member(config, "mcpSettings"@) {
        None => McpSettings::spec_default(),
        Some(settings) => {
            let timeout = field_read(settings, "toolCallTimeoutSeconds"@);
            let base = field_read(settings, "baseRestartDelayMs"@);
            let max = field_read(settings, "maxRestartDelayMs"@);
            let multiplier = multiplier_read(settings, multiplier_permille);
            if json_object(settings) is None || timeout is Invalid || base is Invalid
                || max is Invalid || multiplier is Invalid {
                McpSettings::spec_default()
            } else {
                McpSettings {
                    tool_call_timeout_seconds: or_default(
                        timeout,
                        DEFAULT_MCP_TOOL_CALL_TIMEOUT_SECS,
                    ),
                    base_restart_delay_ms: or_default(base, DEFAULT_MCP_BASE_RESTART_DELAY_MS),
                    max_restart_delay_ms: or_default(max, DEFAULT_MCP_MAX_RESTART_DELAY_MS),
                    backoff_multiplier_permille: or_default(
                        multiplier,
                        DEFAULT_MCP_BACKOFF_MULTIPLIER_PERMILLE,
                    ),
                }
            }
        },
    }
}

fn read_field(settings: &Value, key: &str) -> (r: FieldRead)
    ensures
        r == field_read(*settings, key@),
{
    match member(settings, key) {
        None => FieldRead::Absent,
        Some(v) => match v.as_u64() {
            Some(n) => FieldRead::Valid(n),
            None => FieldRead::Invalid,
        },
    }
}

/// Reads the settings from a configuration. `multiplier_permille` says how
/// the member `backoffMultiplier` of the settings reads in thousandths; it is
/// none where that member is no number, and does not count where the settings
/// have no such member.
pub fn settings_from_config(config: &Value, multiplier_permille: Option<u64>) -> (s: McpSettings)
    ensures
        s == settings_of(*config, multiplier_permille),
{
    let settings = match member(config, "mcpSettings") {
        Some(settings) => settings,
        None => {
            return McpSettings::default();
        },
    };
    if settings.as_object().is_none() {
        return McpSettings::default();
    }
    let timeout = match read_field(settings, "toolCallTimeoutSeconds") {
        FieldRead::Absent => None,
        FieldRead::Valid(v) => Some(v),
        FieldRead::Invalid => {
            return McpSettings::default();
        },
    };
    let base = match read_field(settings, "baseRestartDelayMs") {
        FieldRead::Absent => None,
        FieldRead::Valid(v) => Some(v),
        FieldRead::Invalid => {
            return McpSettings::default();
        },
    };
    let max = match read_field(settings, "maxRestartDelayMs") {
        FieldRead::Absent => None,
        FieldRead::Valid(v) => Some(v),
        FieldRead::Invalid => {
            return McpSettings::default();
        },
    };
    let multiplier = match member(settings, "backoffMultiplier") {
        None => None,
        Some(v) => match multiplier_permille {
            Some(p) => Some(p),
            None => {
                return McpSettings::default();
            },
        },
    };
    McpSettings::from_parts(timeout, base, max, multiplier)
}

} // verus!
