//! What the bridge asks of the sandbox in which a plugin runs: the
//! restrictions under which a module is loaded, and the failures that a
//! load or a call can report.

use crate::text::{same_text, spec_texts};
use vstd::prelude::*;

verus! {

/// A directory of the host and the path under which the plugin sees it.
#[derive(Debug, PartialEq, Eq)]
pub struct PathMapping {
    pub host: String,
    pub guest: String,
}

/// A configuration value that is handed to the plugin and to nobody else.
#[derive(Debug, PartialEq, Eq)]
pub struct Secret {
    pub key: String,
    pub value: String,
}

/// The restrictions under which one plugin module is loaded. They are fixed
/// at load time and hold for every call made through the loaded module.
#[derive(Debug, PartialEq, Eq)]
pub struct SandboxConfig {
    /// Where the module is found.
    pub locator: String,
    /// The ceiling on the module's memory, in pages.
    pub max_pages: u32,
    /// The hosts that the plugin may reach.
    pub allowed_hosts: Vec<String>,
    /// The directories that the plugin may read.
    pub allowed_paths: Vec<PathMapping>,
    /// The time that one call may take, in seconds.
    pub timeout_secs: u64,
    /// The secrets that the plugin may read.
    pub secrets: Vec<Secret>,
}

/// The mathematical content of a [`SandboxConfig`].
pub struct SandboxConfigView {
    pub locator: Seq<char>,
    pub max_pages: u32,
    pub allowed_hosts: Seq<Seq<char>>,
    pub allowed_paths: Seq<(Seq<char>, Seq<char>)>,
    pub timeout_secs: u64,
    pub secrets: Seq<(Seq<char>, Seq<char>)>,
}

impl View for SandboxConfig {
    type V = SandboxConfigView;

    open spec fn view(&self) -> SandboxConfigView {
        SandboxConfigView {
            locator: self.locator@,
            max_pages: self.max_pages,
            allowed_hosts: spec_texts(self.allowed_hosts@),
            allowed_paths: Seq::new(
                self.allowed_paths@.len(),
                |i: int| (self.allowed_paths@[i].host@, self.allowed_paths@[i].guest@),
            ),
            timeout_secs: self.timeout_secs,
            secrets: Seq::new(
                self.secrets@.len(),
                |i: int| (self.secrets@[i].key@, self.secrets@[i].value@),
            ),
        }
    }
}

/// The restrictions under which the bridge loads every plugin: five pages of
/// memory, the one host of the chat service, the root directory, ten
/// seconds for a call, and the service's key as the only secret.
pub open spec fn spec_standard_config(locator: Seq<char>, api_key: Seq<char>) -> SandboxConfigView {
    SandboxConfigView {
        locator,
        max_pages: 5,
        allowed_hosts: seq!["api.openai.com"@],
        allowed_paths: seq![("/"@, "/"@)],
        timeout_secs: 10,
        secrets: seq![("openai_apikey"@, api_key)],
    }
}

/// The restrictions under which the bridge loads the module at `locator`.
/// The key comes from the bridge's own store, never from a caller.
pub fn standard_config(locator: &str, api_key: &str) -> (config: SandboxConfig)
    ensures
        config@ == spec_standard_config(locator@, api_key@),
{
    let mut allowed_hosts: Vec<String> = Vec::new();
    allowed_hosts.push("api.openai.com".to_owned());
    let mut allowed_paths: Vec<PathMapping> = Vec::new();
    allowed_paths.push(PathMapping { host: "/".to_owned(), guest: "/".to_owned() });
    let mut secrets: Vec<Secret> = Vec::new();
    secrets.push(Secret { key: "openai_apikey".to_owned(), value: api_key.to_owned() });
    let config = SandboxConfig {
        locator: locator.to_owned(),
        max_pages: 5,
        allowed_hosts,
        allowed_paths,
        timeout_secs: 10,
        secrets,
    };
    assert(config@.allowed_hosts =~= seq!["api.openai.com"@]);
    assert(config@.allowed_paths =~= seq![("/"@, "/"@)]);
    assert(config@.secrets =~= seq![("openai_apikey"@, api_key@)]);
    config
}

/// Why a module could not be loaded: it is missing or invalid, or it asks
/// for more memory than the ceiling allows.
#[derive(Debug, PartialEq, Eq)]
pub struct LoadError {
    pub detail: String,
}

/// The ways in which a call into a loaded plugin can fail.
#[derive(Clone, Copy, Debug, PartialEq, Eq, Structural)]
pub enum CallErrorKind {
    /// The call ran longer than the configured time and was stopped.
    Timeout,
    /// The plugin stopped with a fault: an invalid memory access, an import
    /// that is not there or refused, or an error of its own.
    Trap,
    /// The plugin exports no function of that name.
    MissingFunction,
}

/// A failed call: its kind and a description for the operator.
#[derive(Debug, PartialEq, Eq)]
pub struct CallError {
    pub kind: CallErrorKind,
    pub detail: String,
}

/// The mathematical content of a [`CallError`].
pub struct CallErrorView {
    pub kind: CallErrorKind,
    pub detail: Seq<char>,
}

impl View for CallError {
    type V = CallErrorView;

    open spec fn view(&self) -> CallErrorView {
        CallErrorView { kind: self.kind, detail: self.detail@ }
    }
}

/// The kind of a failed call. A function that the plugin does not export
/// was never run; of those that ran, the sandbox reports the one it stopped
/// for running too long with the single word `timeout`; every other failure
/// is a fault of the plugin.
pub open spec fn spec_failure_kind(exported: bool, detail: Seq<char>) -> CallErrorKind {
    if !exported {
        CallErrorKind::MissingFunction
    } else if detail == "timeout"@ {
        CallErrorKind::Timeout
    } else {
        CallErrorKind::Trap
    }
}

/// Files a failed call under its kind, from whether the plugin exports the
/// function and from what the sandbox said of the failure.
pub fn classify_failure(exported: bool, detail: String) -> (error: CallError)
    ensures
        error@ == (CallErrorView { kind: spec_failure_kind(exported, detail@), detail: detail@ }),
{
    let kind = if !exported {
        CallErrorKind::MissingFunction
    } else if same_text(detail.as_str(), "timeout") {
        CallErrorKind::Timeout
    } else {
        CallErrorKind::Trap
    };
    CallError { kind, detail }
}

} // verus!
