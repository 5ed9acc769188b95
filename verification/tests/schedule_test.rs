use agent::legacy::{LegacyJob, LegacySchedule, legacy_entries, legacy_import_plan, legacy_job_to_new, prompt_payload};
use agent::schedule::{
    MissedRunPolicy, PayloadKind, Schedule, is_cron_expression, parse_duration,
    parse_every_interval,
};
use agent::scheduler::{CronJob, map_payload_kind, new_task, plan_policy_tick};
use agent::kanban;
use agent::time::{StdDuration, Timestamp};

#[test]
fn test_parse_duration() {
    assert!(Schedule::parse("30m").is_ok());
    assert!(Schedule::parse("2h").is_ok());
    assert!(Schedule::parse("1d").is_ok());
    assert!(Schedule::parse("60s").is_ok());
}

#[test]
fn test_parse_every() {
    let s = Schedule::parse("every 2h").unwrap();
    assert!(matches!(s, Schedule::Every(_)));
}

#[test]
fn test_parse_cron() {
    let s = Schedule::parse("0 9 * * *").unwrap();
    assert!(matches!(s, Schedule::Cron(_)));
}

#[test]
fn test_parse_iso_timestamp() {
    let s = Schedule::parse("2026-06-01T09:00:00Z").unwrap();
    assert!(matches!(s, Schedule::Once(_)));
}

#[test]
fn test_parse_invalid() {
    assert!(Schedule::parse("not a schedule").is_err());
}

#[test]
fn parses_exact_values() {
    assert_eq!(parse_duration(" 30m "), Ok(StdDuration { secs: 1800, nanos: 0 }));
    assert_eq!(parse_duration("1d"), Ok(StdDuration { secs: 86400, nanos: 0 }));
    assert_eq!(parse_duration("5x"), Err(()));
    assert_eq!(parse_duration(""), Err(()));
    assert_eq!(parse_every_interval("every 2h"), Some(StdDuration { secs: 7200, nanos: 0 }));
    assert_eq!(parse_every_interval("every monday"), None);
    assert!(is_cron_expression("*/5 1-3 * * 1,2"));
    assert!(!is_cron_expression("0 9 * *"));
    assert_eq!(
        Schedule::parse("2026-06-01T09:00:00Z").unwrap(),
        Schedule::Once(Timestamp { secs: 1780304400, nanos: 0 })
    );
    assert_eq!(
        Schedule::parse("2026-06-01T11:00:00+02:00").unwrap(),
        Schedule::Once(Timestamp { secs: 1780304400, nanos: 0 })
    );
    assert_eq!(Schedule::parse("bad").unwrap_err().message(), "invalid schedule format: bad");
}

#[test]
fn next_run_steps_by_the_schedule() {
    let after = Timestamp { secs: 1_000, nanos: 0 };
    assert_eq!(
        Schedule::parse("30m").unwrap().next_after(after),
        Some(Timestamp { secs: 2_800, nanos: 0 })
    );
    assert_eq!(
        Schedule::Every("every 10s".into()).next_after(after),
        Some(Timestamp { secs: 1_010, nanos: 0 })
    );
    assert_eq!(
        Schedule::Every("every week".into()).next_after(after),
        Some(Timestamp { secs: 4_600, nanos: 0 })
    );
    assert_eq!(
        Schedule::Cron("0 9 * * *".into()).next_after(after),
        Some(Timestamp { secs: 4_600, nanos: 0 })
    );
    assert_eq!(Schedule::Once(Timestamp { secs: 900, nanos: 0 }).next_after(after), None);
    assert_eq!(
        Schedule::Once(Timestamp { secs: 1_500, nanos: 0 }).next_after(after),
        Some(Timestamp { secs: 1_500, nanos: 0 })
    );
}

fn job(policy: MissedRunPolicy) -> CronJob {
    let t = Timestamp { secs: 0, nanos: 0 };
    CronJob {
        id: "job-1".into(),
        name: "Report".into(),
        description: "daily".into(),
        schedule: Schedule::Duration(StdDuration { secs: 60, nanos: 0 }),
        payload_kind: PayloadKind::AgentPrompt,
        payload_json: "{\"prompt\":\"report\"}".into(),
        enabled: true,
        missed_run_policy: policy,
        last_run_at: None,
        next_run_at: Some(Timestamp { secs: 60, nanos: 0 }),
        created_at: t,
        updated_at: t,
    }
}

#[test]
fn skip_policy_advances_missed_job_without_creating_task() {
    let tick = plan_policy_tick(&job(MissedRunPolicy::Skip), Timestamp { secs: 60, nanos: 0 }, Timestamp { secs: 1000, nanos: 0 }).unwrap();
    assert!(tick.occurrences.is_empty());
    assert_eq!(tick.last_run_at, Timestamp { secs: 1000, nanos: 0 });
    assert_eq!(tick.next_run_at, Some(Timestamp { secs: 1060, nanos: 0 }));
}

#[test]
fn run_once_policy_creates_one_task_for_missed_window() {
    let tick = plan_policy_tick(&job(MissedRunPolicy::RunOnce), Timestamp { secs: 60, nanos: 0 }, Timestamp { secs: 1000, nanos: 0 }).unwrap();
    assert_eq!(tick.occurrences, vec![Timestamp { secs: 60, nanos: 0 }]);
    assert_eq!(tick.next_run_at, Some(Timestamp { secs: 1060, nanos: 0 }));
}

#[test]
fn catch_up_policy_creates_bounded_tasks_for_missed_intervals() {
    let tick = plan_policy_tick(&job(MissedRunPolicy::CatchUp), Timestamp { secs: 60, nanos: 0 }, Timestamp { secs: 10_000, nanos: 0 }).unwrap();
    assert_eq!(tick.occurrences.len(), 10);
    assert_eq!(tick.occurrences[0], Timestamp { secs: 60, nanos: 0 });
    assert_eq!(tick.occurrences[9], Timestamp { secs: 600, nanos: 0 });
    assert_eq!(tick.last_run_at, Timestamp { secs: 600, nanos: 0 });
    assert_eq!(tick.next_run_at, Some(Timestamp { secs: 660, nanos: 0 }));
    let few = plan_policy_tick(&job(MissedRunPolicy::CatchUp), Timestamp { secs: 60, nanos: 0 }, Timestamp { secs: 200, nanos: 0 }).unwrap();
    assert_eq!(few.occurrences, vec![
        Timestamp { secs: 60, nanos: 0 },
        Timestamp { secs: 120, nanos: 0 },
        Timestamp { secs: 180, nanos: 0 },
    ]);
}

#[test]
fn cron_task_carries_job_payload() {
    let task = new_task(&job(MissedRunPolicy::RunOnce));
    assert_eq!(task.source, "cron");
    assert_eq!(task.source_id.as_deref(), Some("job-1"));
    assert_eq!(task.title, "Report");
    assert_eq!(task.body, "daily");
    assert_eq!(task.payload_kind, kanban::PayloadKind::AgentPrompt);
    assert_eq!(task.max_retries, 1);
    assert_eq!(map_payload_kind(PayloadKind::ShellCommand), kanban::PayloadKind::ShellCommand);
    assert_eq!(MissedRunPolicy::CatchUp.as_str(), "catch_up");
    assert_eq!(MissedRunPolicy::from_text("run_once").unwrap(), MissedRunPolicy::RunOnce);
    assert_eq!(PayloadKind::AgentPrompt.as_str(), "agent_prompt");
}

fn legacy(id: Option<&str>, schedule: Option<LegacySchedule>, command: Option<&str>) -> LegacyJob {
    LegacyJob {
        id: id.map(|s| s.to_string()),
        schedule,
        command: command.map(|s| s.to_string()),
        name: None,
        description: None,
        enabled: None,
    }
}

#[test]
fn legacy_import_imports_old_job_and_preserves_id() {
    let (id, job) = legacy_job_to_new(&legacy(
        Some("legacy-1"),
        Some(LegacySchedule::Text("every 2h".into())),
        Some("summarise inbox"),
    ))
    .unwrap();
    assert_eq!(id, "legacy-1");
    assert_eq!(job.name, "summarise inbox");
    assert_eq!(job.description, "");
    assert!(job.enabled);
    assert_eq!(job.payload_kind, PayloadKind::AgentPrompt);
    assert_eq!(job.missed_run_policy, MissedRunPolicy::RunOnce);
    assert_eq!(job.payload_json, "{\"prompt\":\"summarise inbox\"}");
    assert!(matches!(job.schedule, Schedule::Every(_)));
}

#[test]
fn legacy_entries_without_required_fields_are_skipped() {
    assert!(legacy_job_to_new(&legacy(None, Some(LegacySchedule::Text("1h".into())), Some("x"))).is_none());
    assert!(legacy_job_to_new(&legacy(Some("a"), Some(LegacySchedule::Text("whenever".into())), Some("x"))).is_none());
    assert!(legacy_job_to_new(&legacy(Some("a"), Some(LegacySchedule::Stored(None)), Some("x"))).is_none());
    assert!(legacy_job_to_new(&legacy(Some("a"), Some(LegacySchedule::Text("1h".into())), None)).is_none());
    let stored = legacy_job_to_new(&legacy(
        Some("a"),
        Some(LegacySchedule::Stored(Some(Schedule::Cron("0 9 * * *".into())))),
        Some("x"),
    ));
    assert!(stored.is_some());
    assert_eq!(prompt_payload("say \"hi\""), "{\"prompt\":\"say \\\"hi\\\"\"}");
}

const LEGACY_FILE: &str = r#"[{"id":"legacy-job-1","name":"Legacy prompt","description":"imported from jobs.json","schedule":"5m","command":"summarize inbox","workdir":"/tmp","enabled":false,"last_run":null,"next_run":null}]"#;

#[test]
fn legacy_file_entries_are_read_in_order() {
    let entries = legacy_entries(LEGACY_FILE).unwrap();
    assert_eq!(entries.len(), 1);
    assert_eq!(entries[0].id.as_deref(), Some("legacy-job-1"));
    assert_eq!(entries[0].name.as_deref(), Some("Legacy prompt"));
    assert_eq!(entries[0].description.as_deref(), Some("imported from jobs.json"));
    assert_eq!(entries[0].schedule, Some(LegacySchedule::Text("5m".into())));
    assert_eq!(entries[0].command.as_deref(), Some("summarize inbox"));
    assert_eq!(entries[0].enabled, Some(false));
    let stored = legacy_entries(r#"[{"id":"a","schedule":{"Every":"every 2h"},"command":7},{"enabled":"yes"}]"#).unwrap();
    assert_eq!(stored.len(), 2);
    assert_eq!(stored[0].schedule, Some(LegacySchedule::Value("{\"Every\":\"every 2h\"}".into())));
    assert_eq!(stored[0].command, None);
    assert_eq!(stored[1].id, None);
    assert_eq!(stored[1].enabled, None);
}

#[test]
fn legacy_file_errors() {
    let not_json = legacy_entries("not json").unwrap_err();
    assert_eq!(not_json, serde_json::from_str::<serde_json::Value>("not json").unwrap_err().to_string());
    assert_eq!(legacy_entries("{}").unwrap_err(), "legacy cron jobs file must be a JSON array");
    assert_eq!(legacy_entries("[]").unwrap(), Vec::<LegacyJob>::new());
}

#[test]
fn legacy_import_plan_imports_old_job_and_preserves_id() {
    let entries = legacy_entries(LEGACY_FILE).unwrap();
    let plan = legacy_import_plan(&entries, &Vec::new()).unwrap();
    assert_eq!(plan.len(), 1);
    let (id, job) = &plan[0];
    assert_eq!(id, "legacy-job-1");
    assert_eq!(job.name, "Legacy prompt");
    assert_eq!(job.description, "imported from jobs.json");
    assert!(matches!(job.schedule, Schedule::Duration(_)));
    assert_eq!(job.payload_kind, PayloadKind::AgentPrompt);
    assert_eq!(job.payload_json, "{\"prompt\":\"summarize inbox\"}");
    assert!(!job.enabled);
    assert_eq!(job.missed_run_policy, MissedRunPolicy::RunOnce);
}

#[test]
fn legacy_second_import_does_not_duplicate() {
    let text = r#"[{"id":"legacy-job-1","name":"Legacy prompt","description":"imported from jobs.json","schedule":{"Every":"every 2h"},"command":"summarize inbox","enabled":true}]"#;
    let mut entries = legacy_entries(text).unwrap();
    entries[0].schedule = Some(LegacySchedule::Stored(Some(Schedule::Every("every 2h".into()))));
    let first = legacy_import_plan(&entries, &Vec::new()).unwrap();
    assert_eq!(first.len(), 1);
    assert_eq!(first[0].0, "legacy-job-1");
    assert!(matches!(first[0].1.schedule, Schedule::Every(_)));
    let stored: Vec<String> = first.iter().map(|(id, _)| id.clone()).collect();
    assert!(legacy_import_plan(&entries, &stored).unwrap().is_empty());
}

#[test]
fn legacy_plan_skips_known_and_repeated_ids_and_reads_only_reached_entries() {
    let entries = vec![
        legacy(Some("a"), Some(LegacySchedule::Text("1h".into())), Some("first")),
        legacy(Some("a"), Some(LegacySchedule::Text("2h".into())), Some("second")),
        legacy(Some("b"), Some(LegacySchedule::Text("18446744073709551615d".into())), Some("x")),
        legacy(Some("c"), Some(LegacySchedule::Value("{}".into())), Some("y")),
    ];
    let plan = legacy_import_plan(&entries, &vec!["b".to_string()]).unwrap();
    assert_eq!(plan.len(), 1);
    assert_eq!(plan[0].0, "a");
    assert_eq!(plan[0].1.name, "first");
    assert!(legacy_import_plan(&entries, &Vec::new()).is_none());
}

#[test]
fn prompt_payload_escapes_control_characters() {
    assert_eq!(prompt_payload("a\u{1}\n\\\t\u{1f}é"), "{\"prompt\":\"a\\u0001\\n\\\\\\t\\u001fé\"}");
    assert_eq!(prompt_payload(""), "{\"prompt\":\"\"}");
}
