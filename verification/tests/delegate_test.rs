use agent::delegate::{DelegateConfig, DelegateError, DelegateExecutor, DelegateRole, DelegateTask, decimal_string};

#[test]
fn test_leaf_cannot_delegate() {
    let config = DelegateConfig::default();
    let exec = DelegateExecutor::new(config);
    let task = DelegateTask::new("do something").role(DelegateRole::Leaf);
    assert!(exec.can_delegate(&task.role).is_err());
}

#[test]
fn test_orchestrator_can_delegate() {
    let config = DelegateConfig::default();
    let exec = DelegateExecutor::new(config);
    let task = DelegateTask::new("coordinate").role(DelegateRole::Orchestrator);
    assert!(exec.can_delegate(&task.role).is_ok());
}

#[test]
fn test_max_depth() {
    let config = DelegateConfig {
        max_spawn_depth: 2,
        ..Default::default()
    };
    let exec = DelegateExecutor::new(config).with_depth(2);
    let task = DelegateTask::new("x").role(DelegateRole::Orchestrator);
    assert!(exec.can_delegate(&task.role).is_err());
}

#[test]
fn test_spawn_tracking() {
    let config = DelegateConfig::default();
    let mut exec = DelegateExecutor::new(config);
    let task = DelegateTask::new("test").role(DelegateRole::Orchestrator);
    let handle = exec.spawn(&task).unwrap();
    assert_eq!(exec.active_children_count(), 1);
    exec.complete(&handle);
    assert_eq!(exec.active_children_count(), 0);
}

#[test]
fn spawn_gives_fresh_identifiers_one_level_deeper() {
    let mut exec = DelegateExecutor::new(DelegateConfig::default()).with_depth(1);
    let task = DelegateTask::new("test").role(DelegateRole::Orchestrator);
    let a = exec.spawn(&task).unwrap();
    assert_eq!(a.depth, 2);
    assert_eq!(a.id.len(), 36);
    assert_eq!(a.id.chars().nth(8), Some('-'));
    assert!(exec.spawn(&task).is_ok());
    assert_eq!(exec.active_children_count(), 2);
}

#[test]
fn concurrency_limit_refuses_extra_children() {
    let mut exec = DelegateExecutor::new(DelegateConfig::default());
    let task = DelegateTask::new("t").role(DelegateRole::Orchestrator);
    for i in 0..3 {
        exec.spawn_with_id(&task, format!("child-{i}")).unwrap();
    }
    assert_eq!(exec.spawn_with_id(&task, "extra".into()), Err(DelegateError::MaxConcurrentExceeded));
    assert_eq!(exec.active_children_count(), 3);
}

#[test]
fn disabled_orchestrators_are_refused_as_leaves() {
    let config = DelegateConfig { orchestrator_enabled: false, ..Default::default() };
    let exec = DelegateExecutor::new(config);
    assert_eq!(exec.can_delegate(&DelegateRole::Orchestrator), Err(DelegateError::LeafCannotDelegate));
}

#[test]
fn completing_without_children_keeps_zero() {
    let mut exec = DelegateExecutor::new(DelegateConfig::default());
    let task = DelegateTask::new("t").role(DelegateRole::Orchestrator);
    let handle = exec.spawn_with_id(&task, "h".into()).unwrap();
    exec.complete(&handle);
    exec.complete(&handle);
    assert_eq!(exec.active_children_count(), 0);
}

#[test]
fn child_config_reduces_depth_without_underflow() {
    let exec = DelegateExecutor::new(DelegateConfig::default());
    assert_eq!(exec.child_config(1).max_spawn_depth, 1);
    assert_eq!(exec.child_config(5).max_spawn_depth, 0);
    assert_eq!(exec.child_config(1).max_concurrent_children, 3);
    assert_eq!(exec.child_config(1).child_timeout_seconds, 300);
}

#[test]
fn task_builders_and_error_texts() {
    let task = DelegateTask::new("goal").context("ctx").timeout(30);
    assert_eq!(task.goal, "goal");
    assert_eq!(task.context.as_deref(), Some("ctx"));
    assert_eq!(task.timeout_seconds, Some(30));
    assert_eq!(task.role, DelegateRole::Leaf);
    assert_eq!(DelegateError::Timeout(300).message(), "timeout after 300s");
    assert_eq!(DelegateError::MaxDepthExceeded.message(), "max spawn depth exceeded");
    assert_eq!(DelegateError::MaxConcurrentExceeded.message(), "max concurrent children exceeded");
    assert_eq!(DelegateError::LeafCannotDelegate.message(), "leaf agent cannot delegate");
    assert_eq!(DelegateError::ExecutionFailed("x".into()).message(), "execution failed: x");
    assert_eq!(decimal_string(0), "0");
    assert_eq!(decimal_string(1234567890), "1234567890");
}
