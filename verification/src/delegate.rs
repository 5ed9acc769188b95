//! Delegation of work to child agents: which agents may spawn children, how
//! many at once and how deep, and the tasks handed to them.
use vstd::prelude::*;
use crate::text::{join2, owned};

verus! {

/// Why a delegation was refused or failed.
#[derive(Debug, PartialEq, Eq)]
pub enum DelegateError {
    MaxDepthExceeded,
    MaxConcurrentExceeded,
    LeafCannotDelegate,
    Timeout(u64),
    ExecutionFailed(String),
}

/// The text of an error; a timeout's seconds are given as their decimal digits.
pub open spec fn delegate_error_text(e: DelegateError, seconds_text: Seq<char>) -> Seq<char> {
    match e {
        DelegateError::MaxDepthExceeded => "max spawn depth exceeded"@,
        DelegateError::MaxConcurrentExceeded => "max concurrent children exceeded"@,
        DelegateError::LeafCannotDelegate => "leaf agent cannot delegate"@,
        DelegateError::Timeout(_) => "timeout after "@ + seconds_text + "s"@,
        DelegateError::ExecutionFailed(d) => "execution failed: "@ + d@,
    }
}

/// The decimal digits of `n`, most significant first.
pub open spec fn decimal_text(n: nat) -> Seq<char>
    decreases n,
{
    if n < 10 {
        seq![digit_char(n)]
    } else {
        decimal_text(n / 10).push(digit_char(n % 10))
    }
}

pub open spec fn digit_char(d: nat) -> char {
    if d == 0 { '0' } else if d == 1 { '1' } else if d == 2 { '2' } else if d == 3 { '3' }
    else if d == 4 { '4' } else if d == 5 { '5' } else if d == 6 { '6' } else if d == 7 { '7' }
    else if d == 8 { '8' } else { '9' }
}

fn digit_str(d: u64) -> (r: &'static str)
    requires
        d < 10,
    ensures
        r@ == seq![digit_char(d as nat)],
{
    let r = if d == 0 { "0" } else if d == 1 { "1" } else if d == 2 { "2" } else if d == 3 { "3" }
    else if d == 4 { "4" } else if d == 5 { "5" } else if d == 6 { "6" } else if d == 7 { "7" }
    else if d == 8 { "8" } else { "9" };
    proof {
        reveal_strlit("0");
        reveal_strlit("1");
        reveal_strlit("2");
        reveal_strlit("3");
        reveal_strlit("4");
        reveal_strlit("5");
        reveal_strlit("6");
        reveal_strlit("7");
        reveal_strlit("8");
        reveal_strlit("9");
    }
    r
}

/// The decimal text of a number.
pub fn decimal_string(n: u64) -> (r: String)
    ensures
        r@ == decimal_text(n as nat),
    decreases n,
{
    if n < 10 {
        owned(digit_str(n))
    } else {
        let head = decimal_string(n / 10);
        let d = digit_str(n % 10);
        head.concat(d)
    }
}

impl DelegateError {
    pub fn message(&self) -> (r: String)
        ensures
            r@ == delegate_error_text(*self, match *self {
                DelegateError::Timeout(s) => decimal_text(s as nat),
                _ => Seq::<char>::empty(),
            }),
    {
        match self {
            DelegateError::MaxDepthExceeded => owned("max spawn depth exceeded"),
            DelegateError::MaxConcurrentExceeded => owned("max concurrent children exceeded"),
            DelegateError::LeafCannotDelegate => owned("leaf agent cannot delegate"),
            DelegateError::Timeout(s) => {
                let digits = decimal_string(*s);
                let head = join2("timeout after ", digits.as_str());
                head.concat("s")
            },
            DelegateError::ExecutionFailed(d) => join2("execution failed: ", d.as_str()),
        }
    }
}

#[derive(Debug, Clone, PartialEq, Eq)]
pub struct DelegateConfig {
    pub max_concurrent_children: u32,
    pub max_spawn_depth: u32,
    pub child_timeout_seconds: u64,
    pub orchestrator_enabled: bool,
}

impl Default for DelegateConfig {
    /// Three children at once, two levels deep, five minutes each, orchestrators allowed.
    fn default() -> (r: Self)
        ensures
            r.max_concurrent_children == 3,
            r.max_spawn_depth == 2,
            r.child_timeout_seconds == 300,
            r.orchestrator_enabled,
    {
        DelegateConfig {
            max_concurrent_children: 3,
            max_spawn_depth: 2,
            child_timeout_seconds: 300,
            orchestrator_enabled: true,
        }
    }
}

#[derive(Debug, Clone, Copy, PartialEq, Eq, Structural)]
pub enum DelegateRole {
    Leaf,
    Orchestrator,
}

/// A piece of work for a child agent.
#[derive(Debug, Clone, PartialEq, Eq)]
pub struct DelegateTask {
    pub goal: String,
    pub context: Option<String>,
    pub toolsets: Option<Vec<String>>,
    pub role: DelegateRole,
    pub timeout_seconds: Option<u64>,
}

impl DelegateTask {
    /// A leaf task with only a goal.
    pub fn new(goal: &str) -> (r: Self)
        ensures
            r.goal@ == goal@,
            r.context is None,
            r.toolsets is None,
            r.role == DelegateRole::Leaf,
            r.timeout_seconds is None,
    {
        DelegateTask { goal: owned(goal), context: None, toolsets: None, role: DelegateRole::Leaf, timeout_seconds: None }
    }

    pub fn role(self, role: DelegateRole) -> (r: Self)
        ensures
            r == (DelegateTask { role, ..self }),
    {
        DelegateTask { role, ..self }
    }

    pub fn context(self, ctx: &str) -> (r: Self)
        ensures
            r.goal == self.goal,
            r.context matches Some(c) && c@ == ctx@,
            r.toolsets == self.toolsets,
            r.role == self.role,
            r.timeout_seconds == self.timeout_seconds,
    {
        DelegateTask { context: Some(owned(ctx)), ..self }
    }

    pub fn timeout(self, secs: u64) -> (r: Self)
        ensures
            r == (DelegateTask { timeout_seconds: Some(secs), ..self }),
    {
        DelegateTask { timeout_seconds: Some(secs), ..self }
    }
}

/// One task, or a batch run with a bound on how many run at once.
#[derive(Debug, Clone, PartialEq, Eq)]
pub enum DelegateMode {
    Single,
    Batch { tasks: Vec<DelegateTask>, max_concurrent: u32 },
}

/// A child spawned at some depth.
#[derive(Debug, PartialEq, Eq)]
pub struct SpawnHandle {
    pub id: String,
    pub depth: u32,
}

/// A UUID in its hyphenated lowercase form: 36 characters, hyphens at
/// positions 8, 13, 18 and 23, lowercase hexadecimal digits elsewhere.
pub open spec fn is_hyphenated_uuid(s: Seq<char>) -> bool {
    &&& s.len() == 36
    &&& forall|i: int| 0 <= i < 36 ==> {
        if i == 8 || i == 13 || i == 18 || i == 23 {
            #[trigger] s[i] == '-'
        } else {
            ('0' <= s[i] <= '9') || ('a' <= s[i] <= 'f')
        }
    }
}

/// A fresh random identifier: `uuid::Uuid::new_v4().to_string()`. Only its
/// form is stated; its digits are random.
#[verifier::external_body]
pub(crate) fn random_uuid() -> (r: String)
    ensures
        is_hyphenated_uuid(r@),
{
    uuid::Uuid::new_v4().to_string()
}

/// Spawns and completions of the children of one agent at some depth.
pub struct DelegateExecutor {
    config: DelegateConfig,
    current_depth: u32,
    active_children: u32,
}

/// Why an agent with these settings may not spawn a child in this role, if it may not.
pub open spec fn refusal(config: DelegateConfig, depth: u32, active: u32, role: DelegateRole) -> Option<DelegateError> {
    match role {
        DelegateRole::Leaf => Some(DelegateError::LeafCannotDelegate),
        DelegateRole::Orchestrator => {
            if !config.orchestrator_enabled {
                Some(DelegateError::LeafCannotDelegate)
            } else if depth >= config.max_spawn_depth {
                Some(DelegateError::MaxDepthExceeded)
            } else if active >= config.max_concurrent_children {
                Some(DelegateError::MaxConcurrentExceeded)
            } else {
                None
            }
        },
    }
}

impl DelegateExecutor {
    pub closed spec fn settings(&self) -> DelegateConfig {
        self.config
    }

    pub closed spec fn depth(&self) -> u32 {
        self.current_depth
    }

    pub closed spec fn active(&self) -> u32 {
        self.active_children
    }

    /// The children running never outnumber the configured maximum.
    pub open spec fn within_limits(&self) -> bool {
        self.active() <= self.settings().max_concurrent_children
    }

    /// An executor at depth 0 with no children.
    pub fn new(config: DelegateConfig) -> (r: Self)
        ensures
            r.settings() == config,
            r.depth() == 0,
            r.active() == 0,
            r.within_limits(),
    {
        DelegateExecutor { config, current_depth: 0, active_children: 0 }
    }

    pub fn with_depth(self, depth: u32) -> (r: Self)
        ensures
            r.settings() == self.settings(),
            r.depth() == depth,
            r.active() == self.active(),
            self.within_limits() ==> r.within_limits(),
    {
        DelegateExecutor { current_depth: depth, ..self }
    }

    pub fn can_delegate(&self, role: &DelegateRole) -> (r: Result<(), DelegateError>)
        ensures
            match r {
                Ok(()) => refusal(self.settings(), self.depth(), self.active(), *role) is None,
                Err(e) => refusal(self.settings(), self.depth(), self.active(), *role) == Some(e),
            },
    {
        match role {
            DelegateRole::Leaf => Err(DelegateError::LeafCannotDelegate),
            DelegateRole::Orchestrator => {
                if !self.config.orchestrator_enabled {
                    return Err(DelegateError::LeafCannotDelegate);
                }
                if self.current_depth >= self.config.max_spawn_depth {
                    return Err(DelegateError::MaxDepthExceeded);
                }
                if self.active_children >= self.config.max_concurrent_children {
                    return Err(DelegateError::MaxConcurrentExceeded);
                }
                Ok(())
            },
        }
    }

    /// Spawns a child with the identifier `id` when the task's role allows it:
    /// one more child is active, and the child sits one level deeper.
    pub fn spawn_with_id(&mut self, task: &DelegateTask, id: String) -> (r: Result<SpawnHandle, DelegateError>)
        ensures
            match r {
                Ok(h) => {
                    &&& refusal(old(self).settings(), old(self).depth(), old(self).active(), task.role) is None
                    &&& h.id == id
                    &&& h.depth == old(self).depth() + 1
                    &&& spawned(*old(self), *final(self))
                },
                Err(e) => {
                    &&& refusal(old(self).settings(), old(self).depth(), old(self).active(), task.role) == Some(e)
                    &&& *final(self) == *old(self)
                },
            },
            old(self).within_limits() ==> final(self).within_limits(),
    {
        match self.can_delegate(&task.role) {
            Ok(()) => {},
            Err(e) => return Err(e),
        }
        self.active_children = self.active_children + 1;
        Ok(SpawnHandle { id, depth: self.current_depth + 1 })
    }

    /// Spawns a child with a fresh random identifier, as `spawn_with_id` says.
    pub fn spawn(&mut self, task: &DelegateTask) -> (r: Result<SpawnHandle, DelegateError>)
        ensures
            match r {
                Ok(h) => {
                    &&& refusal(old(self).settings(), old(self).depth(), old(self).active(), task.role) is None
                    &&& is_hyphenated_uuid(h.id@)
                    &&& h.depth == old(self).depth() + 1
                    &&& spawned(*old(self), *final(self))
                },
                Err(e) => {
                    &&& refusal(old(self).settings(), old(self).depth(), old(self).active(), task.role) == Some(e)
                    &&& *final(self) == *old(self)
                },
            },
            old(self).within_limits() ==> final(self).within_limits(),
    {
        let id = random_uuid();
        self.spawn_with_id(task, id)
    }

    /// A child finished: one child fewer is active (never below zero).
    pub fn complete(&mut self, _handle: &SpawnHandle)
        ensures
            completed(*old(self), *final(self)),
            old(self).within_limits() ==> final(self).within_limits(),
    {
        if self.active_children > 0 {
            self.active_children = self.active_children - 1;
        }
    }

    pub fn active_children_count(&self) -> (r: u32)
        ensures
            r == self.active(),
    {
        self.active_children
    }

    /// The settings for a child at `depth`: the same, with the allowed depth
    /// reduced by `depth` (never below zero).
    pub fn child_config(&self, depth: u32) -> (r: DelegateConfig)
        ensures
            r.max_spawn_depth == if self.settings().max_spawn_depth >= depth {
                self.settings().max_spawn_depth - depth
            } else {
                0
            },
            r.max_concurrent_children == self.settings().max_concurrent_children,
            r.child_timeout_seconds == self.settings().child_timeout_seconds,
            r.orchestrator_enabled == self.settings().orchestrator_enabled,
    {
        DelegateConfig {
            max_concurrent_children: self.config.max_concurrent_children,
            max_spawn_depth: self.config.max_spawn_depth.saturating_sub(depth),
            child_timeout_seconds: self.config.child_timeout_seconds,
            orchestrator_enabled: self.config.orchestrator_enabled,
        }
    }
}

/// `b` is `a` with one more active child.
pub open spec fn spawned(a: DelegateExecutor, b: DelegateExecutor) -> bool {
    &&& b.settings() == a.settings()
    &&& b.depth() == a.depth()
    &&& b.active() == a.active() + 1
}

/// `b` is `a` with one active child fewer, or `a` itself when none was active.
pub open spec fn completed(a: DelegateExecutor, b: DelegateExecutor) -> bool {
    &&& b.settings() == a.settings()
    &&& b.depth() == a.depth()
    &&& b.active() == if a.active() > 0 { a.active() - 1 } else { 0 }
}

/// Completing the child that a spawn started brings the count of active
/// children back to what it was.
pub proof fn lemma_spawn_then_complete_restores_count(a: DelegateExecutor, b: DelegateExecutor, c: DelegateExecutor)
    requires
        spawned(a, b),
        completed(b, c),
    ensures
        c.active() == a.active(),
        c.settings() == a.settings(),
        c.depth() == a.depth(),
{
}

/// A leaf never delegates, whatever the settings and counts.
pub proof fn lemma_leaf_never_delegates(config: DelegateConfig, depth: u32, active: u32)
    ensures
        refusal(config, depth, active, DelegateRole::Leaf) == Some(DelegateError::LeafCannotDelegate),
{
}

/// An orchestrator at or past the maximum depth is refused, whatever the count of children.
pub proof fn lemma_depth_limit_refuses(config: DelegateConfig, depth: u32, active: u32)
    requires
        config.orchestrator_enabled,
        depth >= config.max_spawn_depth,
    ensures
        refusal(config, depth, active, DelegateRole::Orchestrator) == Some(DelegateError::MaxDepthExceeded),
{
}

} // verus!
