//! Tool results and the decision whether a requested tool call may run.
use vstd::prelude::*;
use crate::config::PermissionPolicy;
use crate::text::{join2, str_eq};

verus! {

/// What a tool run gave back.
#[derive(Debug, Clone, PartialEq, Eq)]
pub struct ToolResult {
    pub ok: bool,
    pub content: String,
    pub error: Option<String>,
}

/// The text the model is shown for a tool result: its content, or its error
/// when the content is empty.
pub open spec fn tool_message_text(r: ToolResult) -> Seq<char> {
    if r.content@.len() != 0 {
        r.content@
    } else {
        match r.error {
            Some(e) => e@,
            None => Seq::<char>::empty(),
        }
    }
}

pub fn tool_result_message_content(result: &ToolResult) -> (r: String)
    ensures
        r@ == tool_message_text(*result),
{
    if result.content.unicode_len() != 0 {
        result.content.clone()
    } else {
        match &result.error {
            Some(e) => e.clone(),
            None => String::new(),
        }
    }
}

/// A tool call awaiting permission: the tool, what its definition says of it,
/// and the `path` argument of its input when the input has one as text.
#[derive(Debug, Clone)]
pub struct PermissionCheck {
    pub tool_name: String,
    pub input_path: Option<String>,
    pub is_read_only: bool,
    pub is_destructive: bool,
}

/// The file system's answer for the paths a check names, each canonical path as
/// its list of components. `requested` is the canonical form of the requested
/// path (or of its parent, for a file yet to be created), or the error text;
/// `allowed_dirs` holds the canonical form of each allowed directory, in order,
/// or `None` for one that cannot be resolved.
#[derive(Debug)]
pub struct ResolvedPaths {
    pub requested: Result<Vec<String>, String>,
    pub requested_display: String,
    pub allowed_dirs: Vec<Option<Vec<String>>>,
}

#[derive(Debug, Clone, PartialEq, Eq)]
pub enum PermissionResult {
    Allow,
    Deny(String),
    Ask(String),
}

pub ghost enum PermissionOutcome {
    Allow,
    Deny(Seq<char>),
    Ask(Seq<char>),
}

impl View for PermissionResult {
    type V = PermissionOutcome;

    open spec fn view(&self) -> PermissionOutcome {
        match self {
            PermissionResult::Allow => PermissionOutcome::Allow,
            PermissionResult::Deny(m) => PermissionOutcome::Deny(m@),
            PermissionResult::Ask(m) => PermissionOutcome::Ask(m@),
        }
    }
}

/// Some element of `v` reads `s`.
pub open spec fn seq_has(v: Seq<String>, s: Seq<char>) -> bool {
    exists|i: int| 0 <= i < v.len() && #[trigger] v[i]@ == s
}

/// Every component of `dir` starts `path`, in order.
pub open spec fn path_starts_with(path: Seq<String>, dir: Seq<String>) -> bool {
    dir.len() <= path.len() && forall|i: int| 0 <= i < dir.len() ==> #[trigger] dir[i]@ == path[i]@
}

/// The allowed directory `entry` resolved and is a prefix of `path`.
pub open spec fn dir_admits(entry: Option<Vec<String>>, path: Seq<String>) -> bool {
    match entry {
        Some(d) => path_starts_with(path, d@),
        None => false,
    }
}

/// Some allowed directory resolved and is a prefix of `path`.
pub open spec fn under_allowed_dir(path: Seq<String>, dirs: Seq<Option<Vec<String>>>) -> bool {
    exists|i: int| 0 <= i < dirs.len() && dir_admits(#[trigger] dirs[i], path)
}

/// The decision on a tool call, checked in this order: read-only mode, destructive
/// tools, the allow and ask lists (unless everything is auto-approved), then the
/// allowed directories for a call with a `path` argument.
pub open spec fn permission_outcome(
    policy: PermissionPolicy,
    check: PermissionCheck,
    paths: ResolvedPaths,
) -> PermissionOutcome {
    let name = check.tool_name@;
    if policy.read_only && !check.is_read_only {
        PermissionOutcome::Deny("Tool not allowed in read-only mode: "@ + name)
    } else if check.is_destructive && !check.is_read_only && !policy.allow_destructive_tools {
        PermissionOutcome::Deny("Destructive tool not allowed by policy: "@ + name)
    } else if !policy.auto_approve_tools && !seq_has(policy.allowed_tools@, name) {
        if seq_has(policy.ask_tools@, name) {
            PermissionOutcome::Ask("Tool requires approval: "@ + name)
        } else {
            PermissionOutcome::Deny("Tool not allowed by policy: "@ + name)
        }
    } else if check.input_path is Some && policy.allowed_dirs@.len() != 0 {
        let path = check.input_path.unwrap()@;
        match paths.requested {
            Err(e) => PermissionOutcome::Deny(
                "Tool path cannot be resolved: "@ + path + " ("@ + e@ + ")"@,
            ),
            Ok(req) => if under_allowed_dir(req@, paths.allowed_dirs@) {
                PermissionOutcome::Allow
            } else {
                PermissionOutcome::Deny(
                    "Tool path outside allowed directories: "@ + paths.requested_display@,
                )
            },
        }
    } else {
        PermissionOutcome::Allow
    }
}

/// Whether some element of `v` reads `s`.
pub fn vec_has_str(v: &Vec<String>, s: &str) -> (r: bool)
    ensures
        r == seq_has(v@, s@),
{
    let mut i: usize = 0;
    while i < v.len()
        invariant
            i <= v.len(),
            forall|k: int| 0 <= k < i ==> v@[k]@ != s@,
        decreases v.len() - i,
    {
        if str_eq(v[i].as_str(), s) {
            return true;
        }
        i = i + 1;
    }
    false
}

fn starts_with_components(path: &Vec<String>, dir: &Vec<String>) -> (r: bool)
    ensures
        r == path_starts_with(path@, dir@),
{
    if dir.len() > path.len() {
        return false;
    }
    let mut i: usize = 0;
    while i < dir.len()
        invariant
            dir.len() <= path.len(),
            i <= dir.len(),
            forall|k: int| 0 <= k < i ==> dir@[k]@ == path@[k]@,
        decreases dir.len() - i,
    {
        if !str_eq(dir[i].as_str(), path[i].as_str()) {
            return false;
        }
        i = i + 1;
    }
    true
}

fn is_under_allowed_dir(path: &Vec<String>, dirs: &Vec<Option<Vec<String>>>) -> (r: bool)
    ensures
        r == under_allowed_dir(path@, dirs@),
{
    let mut i: usize = 0;
    while i < dirs.len()
        invariant
            i <= dirs.len(),
            forall|k: int| 0 <= k < i ==> !dir_admits(#[trigger] dirs@[k], path@),
        decreases dirs.len() - i,
    {
        match &dirs[i] {
            Some(d) => {
                if starts_with_components(path, d) {
                    return true;
                }
            },
            None => {},
        }
        i = i + 1;
    }
    false
}

/// The call is refused before the lists are consulted: by read-only mode, or
/// as a destructive tool the policy does not allow.
pub open spec fn refused_by_mode(policy: PermissionPolicy, check: PermissionCheck) -> bool {
    (policy.read_only && !check.is_read_only) || (check.is_destructive && !check.is_read_only
        && !policy.allow_destructive_tools)
}

/// The call's path, if any, passes the directory check: it has none, the
/// policy names no directories, or it resolved under one of them.
pub open spec fn path_passes(policy: PermissionPolicy, check: PermissionCheck, paths: ResolvedPaths) -> bool {
    ||| check.input_path is None
    ||| policy.allowed_dirs@.len() == 0
    ||| (paths.requested matches Ok(req) && under_allowed_dir(req@, paths.allowed_dirs@))
}

/// Under a policy that auto-approves tools, a call that read-only mode and the
/// destructive rule let through, and whose path (if any) passes the directory
/// check, is allowed, whatever the allow and ask lists say. So is any such call
/// of a tool on the allow list.
pub proof fn lemma_approved_calls_are_allowed(policy: PermissionPolicy, check: PermissionCheck, paths: ResolvedPaths)
    requires
        policy.auto_approve_tools || seq_has(policy.allowed_tools@, check.tool_name@),
        !refused_by_mode(policy, check),
        path_passes(policy, check, paths),
    ensures
        permission_outcome(policy, check, paths) == PermissionOutcome::Allow,
{
}

/// Read-only mode denies every tool that is not read-only, and a destructive
/// tool that is not read-only is denied unless the policy allows them, even
/// under auto-approval and for tools on the allow list.
pub proof fn lemma_mode_refusals(policy: PermissionPolicy, check: PermissionCheck, paths: ResolvedPaths)
    ensures
        policy.read_only && !check.is_read_only ==> permission_outcome(policy, check, paths)
            == PermissionOutcome::Deny("Tool not allowed in read-only mode: "@ + check.tool_name@),
        !(policy.read_only && !check.is_read_only) && check.is_destructive && !check.is_read_only
            && !policy.allow_destructive_tools ==> permission_outcome(policy, check, paths)
            == PermissionOutcome::Deny("Destructive tool not allowed by policy: "@ + check.tool_name@),
{
}

/// Without auto-approval, a tool on neither list is denied and a tool only on
/// the ask list needs approval, once the mode checks let the call through.
pub proof fn lemma_unlisted_tools(policy: PermissionPolicy, check: PermissionCheck, paths: ResolvedPaths)
    requires
        !policy.auto_approve_tools,
        !seq_has(policy.allowed_tools@, check.tool_name@),
        !refused_by_mode(policy, check),
    ensures
        seq_has(policy.ask_tools@, check.tool_name@) ==> permission_outcome(policy, check, paths)
            == PermissionOutcome::Ask("Tool requires approval: "@ + check.tool_name@),
        !seq_has(policy.ask_tools@, check.tool_name@) ==> permission_outcome(policy, check, paths)
            == PermissionOutcome::Deny("Tool not allowed by policy: "@ + check.tool_name@),
{
}

/// A call that the mode checks and the lists let through, but that names a
/// path while the policy names directories, is denied where the path cannot
/// be resolved or lies under none of them.
pub proof fn lemma_path_refusals(policy: PermissionPolicy, check: PermissionCheck, paths: ResolvedPaths)
    requires
        !refused_by_mode(policy, check),
        policy.auto_approve_tools || seq_has(policy.allowed_tools@, check.tool_name@),
        check.input_path is Some,
        policy.allowed_dirs@.len() != 0,
    ensures
        paths.requested matches Err(e) ==> permission_outcome(policy, check, paths) == PermissionOutcome::Deny(
            "Tool path cannot be resolved: "@ + check.input_path.unwrap()@ + " ("@ + e@ + ")"@,
        ),
        paths.requested matches Ok(req) ==> (!under_allowed_dir(req@, paths.allowed_dirs@) <==> permission_outcome(
            policy,
            check,
            paths,
        ) == PermissionOutcome::Deny("Tool path outside allowed directories: "@ + paths.requested_display@)),
{
}

/// Decides whether a tool call may run under `policy`.
pub fn tool_permission_for_policy(
    policy: &PermissionPolicy,
    check: &PermissionCheck,
    paths: &ResolvedPaths,
) -> (r: PermissionResult)
    ensures
        r@ == permission_outcome(*policy, *check, *paths),
{
    let name = check.tool_name.as_str();
    if policy.read_only && !check.is_read_only {
        return PermissionResult::Deny(join2("Tool not allowed in read-only mode: ", name));
    }
    if check.is_destructive && !check.is_read_only && !policy.allow_destructive_tools {
        return PermissionResult::Deny(join2("Destructive tool not allowed by policy: ", name));
    }
    if !policy.auto_approve_tools && !vec_has_str(&policy.allowed_tools, name) {
        if vec_has_str(&policy.ask_tools, name) {
            return PermissionResult::Ask(join2("Tool requires approval: ", name));
        }
        return PermissionResult::Deny(join2("Tool not allowed by policy: ", name));
    }
    if let Some(path) = &check.input_path {
        if policy.allowed_dirs.len() != 0 {
            match &paths.requested {
                Err(e) => {
                    let text = join2("Tool path cannot be resolved: ", path.as_str()).concat(
                        " (",
                    ).concat(e.as_str()).concat(")");
                    return PermissionResult::Deny(text);
                },
                Ok(req) => {
                    if !is_under_allowed_dir(req, &paths.allowed_dirs) {
                        return PermissionResult::Deny(
                            join2(
                                "Tool path outside allowed directories: ",
                                paths.requested_display.as_str(),
                            ),
                        );
                    }
                },
            }
        }
    }
    PermissionResult::Allow
}

} // verus!
