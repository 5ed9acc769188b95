//! The simple tool permission policy: a tool may run when everything is
//! auto-approved or when the tool is on the allowed list.
use vstd::prelude::*;
use crate::text::owned;
use crate::tools::{seq_has, vec_has_str};

verus! {

/// Which tools may run without asking, and in which directories.
#[derive(Debug, Clone, PartialEq, Eq)]
pub struct PermissionPolicy {
    pub auto_approve_tools: bool,
    pub allowed_tools: Vec<String>,
    pub allowed_dirs: Vec<String>,
}

impl PermissionPolicy {
    /// The default policy for a process whose working directory is
    /// `current_dir`: nothing auto-approved; `read_file`, `todo` and
    /// `web_search` allowed; the working directory allowed.
    pub fn default_in(current_dir: &str) -> (r: Self)
        ensures
            !r.auto_approve_tools,
            r.allowed_tools@.len() == 3,
            r.allowed_tools@[0]@ == "read_file"@,
            r.allowed_tools@[1]@ == "todo"@,
            r.allowed_tools@[2]@ == "web_search"@,
            r.allowed_dirs@.len() == 1,
            r.allowed_dirs@[0]@ == current_dir@,
    {
        let mut allowed_tools: Vec<String> = Vec::new();
        allowed_tools.push(owned("read_file"));
        allowed_tools.push(owned("todo"));
        allowed_tools.push(owned("web_search"));
        let mut allowed_dirs: Vec<String> = Vec::new();
        allowed_dirs.push(owned(current_dir));
        PermissionPolicy { auto_approve_tools: false, allowed_tools, allowed_dirs }
    }
}

/// A tool may run when the policy approves everything or lists the tool; the
/// working directory plays no part.
pub fn check_permission(policy: &PermissionPolicy, tool_name: &str, _work_dir: &str) -> (r: bool)
    ensures
        r == (policy.auto_approve_tools || seq_has(policy.allowed_tools@, tool_name@)),
{
    if policy.auto_approve_tools {
        return true;
    }
    vec_has_str(&policy.allowed_tools, tool_name)
}

} // verus!
