//! Plugin hooks: the points of a run where plugins are called, and the error a
//! failing hook reports.
use vstd::prelude::*;
use crate::text::{join2, join3};

verus! {

#[derive(Debug, Clone, Copy, PartialEq, Eq, Hash, Structural)]
pub enum HookPoint {
    PreToolCall,
    PostToolCall,
    PreLlmCall,
    PostLlmCall,
    OnSessionStart,
    OnSessionEnd,
    OnSessionReset,
    SubagentStop,
    PreApprovalRequest,
    PostApprovalResponse,
}

#[derive(Debug)]
pub enum HookError {
    ExecutionError(String),
}

pub open spec fn hook_error_text(e: HookError) -> Seq<char> {
    match e {
        HookError::ExecutionError(d) => "hook failed: "@ + d@,
    }
}

impl HookError {
    pub fn message(&self) -> (r: String)
        ensures
            r@ == hook_error_text(*self),
    {
        match self {
            HookError::ExecutionError(d) => join2("hook failed: ", d.as_str()),
        }
    }
}

/// The error a registry reports when the hook of `plugin_id` failed with `error`.
pub fn hook_failure(plugin_id: &str, error: &HookError) -> (r: HookError)
    ensures
        r matches HookError::ExecutionError(d)
            && d@ == "Hook "@ + plugin_id@ + " failed: "@ + hook_error_text(*error),
{
    let inner = error.message();
    let head = join3("Hook ", plugin_id, " failed: ");
    HookError::ExecutionError(head.concat(inner.as_str()))
}

} // verus!
