//! Configuration sections that the agent's decisions read.
use vstd::prelude::*;
use crate::text::owned;

verus! {

#[derive(Debug, Clone, Copy, PartialEq, Eq, Structural)]
pub enum StreamMode {
    Full,
    Token,
}

impl Default for StreamMode {
    fn default() -> (r: Self)
        ensures
            r == StreamMode::Full,
    {
        StreamMode::Full
    }
}

#[derive(Debug, Clone, Copy, PartialEq, Eq)]
pub struct AgentBehaviorConfig {
    pub max_iterations: u32,
    pub stream_mode: StreamMode,
    pub auto_approve_tools: bool,
}

impl Default for AgentBehaviorConfig {
    fn default() -> (r: Self)
        ensures
            r.max_iterations == 0,
            r.stream_mode == StreamMode::Full,
            !r.auto_approve_tools,
    {
        AgentBehaviorConfig { max_iterations: 0, stream_mode: StreamMode::Full, auto_approve_tools: false }
    }
}

/// Where the agent keeps its home and its workspace; paths are held as text.
#[derive(Debug, Clone, PartialEq, Eq)]
pub struct PathConfig {
    pub home: Option<String>,
    pub workspace: Option<String>,
}

impl Default for PathConfig {
    fn default() -> (r: Self)
        ensures
            r.home is None,
            r.workspace is None,
    {
        PathConfig { home: None, workspace: None }
    }
}

#[derive(Debug, Clone, Copy, PartialEq, Eq)]
pub struct DisplayConfig {
    pub verbose: bool,
    pub colors: bool,
}

impl Default for DisplayConfig {
    fn default() -> (r: Self)
        ensures
            !r.verbose,
            !r.colors,
    {
        DisplayConfig { verbose: false, colors: false }
    }
}

/// The tool policy of the agent loop.
#[derive(Debug, Clone, PartialEq, Eq)]
pub struct PermissionPolicy {
    pub auto_approve_tools: bool,
    pub read_only: bool,
    pub allow_destructive_tools: bool,
    pub allowed_tools: Vec<String>,
    pub ask_tools: Vec<String>,
    pub allowed_dirs: Vec<String>,
}

/// The value a policy file gives `auto_approve_tools` when it leaves the key out.
pub fn default_true() -> (r: bool)
    ensures
        r,
{
    true
}

impl Default for PermissionPolicy {
    /// Nothing is auto-approved; `read_file`, `todo` and `browse_web` are allowed.
    fn default() -> (r: Self)
        ensures
            !r.auto_approve_tools,
            !r.read_only,
            !r.allow_destructive_tools,
            r.allowed_tools@.len() == 3,
            r.allowed_tools@[0]@ == "read_file"@,
            r.allowed_tools@[1]@ == "todo"@,
            r.allowed_tools@[2]@ == "browse_web"@,
            r.ask_tools@.len() == 0,
            r.allowed_dirs@.len() == 0,
    {
        let mut allowed_tools: Vec<String> = Vec::new();
        allowed_tools.push(owned("read_file"));
        allowed_tools.push(owned("todo"));
        allowed_tools.push(owned("browse_web"));
        PermissionPolicy {
            auto_approve_tools: false,
            read_only: false,
            allow_destructive_tools: false,
            allowed_tools,
            ask_tools: Vec::new(),
            allowed_dirs: Vec::new(),
        }
    }
}

} // verus!
