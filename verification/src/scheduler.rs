//! What the cron scheduler does with a due job: which occurrences become tasks,
//! and where the job's last and next runs move to.
use vstd::prelude::*;
use crate::kanban::{self, NewTask};
use crate::schedule::{
    MissedRunPolicy, PayloadKind, Schedule, ScheduleView, next_run, next_run_defined,
    schedule_readable,
};
use crate::text::owned;
use crate::time::{Span, StdDuration, Timestamp, add_span, before, checked_add, is_before, span_from_std, span_of, valid_timestamp};

verus! {

/// How many occurrences one catch-up tick creates at most.
pub const CATCH_UP_LIMIT: usize = 10;

/// A stored cron job; the payload is JSON text.
#[derive(Debug, Clone, PartialEq, Eq)]
pub struct CronJob {
    pub id: String,
    pub name: String,
    pub description: String,
    pub schedule: Schedule,
    pub payload_kind: PayloadKind,
    pub payload_json: String,
    pub enabled: bool,
    pub missed_run_policy: MissedRunPolicy,
    pub last_run_at: Option<Timestamp>,
    pub next_run_at: Option<Timestamp>,
    pub created_at: Timestamp,
    pub updated_at: Timestamp,
}

/// A cron job to create; the payload is JSON text.
#[derive(Debug, Clone, PartialEq, Eq)]
pub struct NewCronJob {
    pub name: String,
    pub description: String,
    pub schedule: Schedule,
    pub payload_kind: PayloadKind,
    pub payload_json: String,
    pub enabled: bool,
    pub missed_run_policy: MissedRunPolicy,
}

/// A cron job to create, as mathematical values.
pub ghost struct NewCronJobView {
    pub name: Seq<char>,
    pub description: Seq<char>,
    pub schedule: ScheduleView,
    pub payload_kind: PayloadKind,
    pub payload_json: Seq<char>,
    pub enabled: bool,
    pub missed_run_policy: MissedRunPolicy,
}

impl View for NewCronJob {
    type V = NewCronJobView;

    open spec fn view(&self) -> NewCronJobView {
        NewCronJobView {
            name: self.name@,
            description: self.description@,
            schedule: self.schedule@,
            payload_kind: self.payload_kind,
            payload_json: self.payload_json@,
            enabled: self.enabled,
            missed_run_policy: self.missed_run_policy,
        }
    }
}

/// The outcome of one scheduler tick for one job: the occurrences to turn into
/// tasks, and the job's new last and next run.
#[derive(Debug, Clone, PartialEq, Eq)]
pub struct PolicyTick {
    pub occurrences: Vec<Timestamp>,
    pub last_run_at: Timestamp,
    pub next_run_at: Option<Timestamp>,
}

/// Further occurrences after `last`, one span apart, that are not after `now`,
/// at most `room` of them.
pub open spec fn catch_up_after(last: Timestamp, sp: Span, now: Timestamp, room: nat) -> Seq<Timestamp>
    decreases room,
{
    if room == 0 {
        Seq::empty()
    } else {
        match add_span(last, sp) {
            None => Seq::empty(),
            Some(n) => if before(now, n) {
                Seq::empty()
            } else {
                seq![n] + catch_up_after(n, sp, now, (room - 1) as nat)
            },
        }
    }
}

/// The occurrences a catch-up tick creates: the missed one, then (for a
/// duration schedule) each later one up to `now`, ten at most in all.
pub open spec fn catch_up_occurrences(s: ScheduleView, scheduled_for: Timestamp, now: Timestamp) -> Seq<
    Timestamp,
> {
    seq![scheduled_for] + match s {
        ScheduleView::Duration(d) => match span_of(d) {
            Some(sp) => catch_up_after(scheduled_for, sp, now, 9),
            None => Seq::empty(),
        },
        _ => Seq::empty(),
    }
}

/// The occurrences one tick creates for a job due at `scheduled_for`.
pub open spec fn tick_occurrences(
    policy: MissedRunPolicy,
    s: ScheduleView,
    scheduled_for: Timestamp,
    now: Timestamp,
) -> Seq<Timestamp> {
    match policy {
        MissedRunPolicy::Skip => if before(scheduled_for, now) {
            Seq::empty()
        } else {
            seq![scheduled_for]
        },
        MissedRunPolicy::RunOnce => seq![scheduled_for],
        MissedRunPolicy::CatchUp => catch_up_occurrences(s, scheduled_for, now),
    }
}

/// The instant a tick records as the job's last run: the last caught-up
/// occurrence for catch-up, `now` otherwise.
pub open spec fn tick_last_run(
    policy: MissedRunPolicy,
    s: ScheduleView,
    scheduled_for: Timestamp,
    now: Timestamp,
) -> Timestamp {
    match policy {
        MissedRunPolicy::CatchUp => catch_up_occurrences(s, scheduled_for, now).last(),
        _ => now,
    }
}

proof fn lemma_catch_up_after_bounded(last: Timestamp, sp: Span, now: Timestamp, room: nat)
    ensures
        catch_up_after(last, sp, now, room).len() <= room,
        forall|i: int| 0 <= i < catch_up_after(last, sp, now, room).len() ==> !before(now, #[trigger] catch_up_after(last, sp, now, room)[i]),
    decreases room,
{
    if room > 0 {
        match add_span(last, sp) {
            None => {},
            Some(n) => {
                if !before(now, n) {
                    lemma_catch_up_after_bounded(n, sp, now, (room - 1) as nat);
                    let rest = catch_up_after(n, sp, now, (room - 1) as nat);
                    assert forall|i: int| 0 <= i < catch_up_after(last, sp, now, room).len() implies !before(now, #[trigger] catch_up_after(last, sp, now, room)[i]) by {
                        if i > 0 {
                            assert(catch_up_after(last, sp, now, room)[i] == rest[i - 1]);
                        }
                    }
                }
            },
        }
    }
}

/// One tick never creates more than `CATCH_UP_LIMIT` tasks; a catch-up tick
/// starts with the missed occurrence and creates no later occurrence that lies
/// after `now`; a run-once tick creates exactly the missed one.
pub proof fn lemma_tick_is_bounded(policy: MissedRunPolicy, s: ScheduleView, scheduled_for: Timestamp, now: Timestamp)
    ensures
        tick_occurrences(policy, s, scheduled_for, now).len() <= CATCH_UP_LIMIT,
        policy == MissedRunPolicy::CatchUp ==> {
            let occ = tick_occurrences(policy, s, scheduled_for, now);
            &&& occ.len() >= 1
            &&& occ[0] == scheduled_for
            &&& forall|i: int| 1 <= i < occ.len() ==> !before(now, #[trigger] occ[i])
        },
        policy == MissedRunPolicy::RunOnce ==> tick_occurrences(policy, s, scheduled_for, now) == seq![scheduled_for],
{
    match s {
        ScheduleView::Duration(d) => match span_of(d) {
            Some(sp) => {
                lemma_catch_up_after_bounded(scheduled_for, sp, now, 9);
                if policy == MissedRunPolicy::CatchUp {
                    let occ = tick_occurrences(policy, s, scheduled_for, now);
                    let rest = catch_up_after(scheduled_for, sp, now, 9);
                    assert forall|i: int| 1 <= i < occ.len() implies !before(now, #[trigger] occ[i]) by {
                        assert(occ[i] == rest[i - 1]);
                    }
                }
            },
            None => {},
        },
        _ => {},
    }
}

proof fn lemma_catch_up_after_spacing(last: Timestamp, sp: Span, now: Timestamp, room: nat)
    ensures
        catch_up_after(last, sp, now, room).len() > 0 ==> add_span(last, sp) == Some(catch_up_after(last, sp, now, room)[0]),
        forall|i: int|
            0 <= i < catch_up_after(last, sp, now, room).len() - 1 ==> add_span(
                #[trigger] catch_up_after(last, sp, now, room)[i],
                sp,
            ) == Some(catch_up_after(last, sp, now, room)[i + 1]),
    decreases room,
{
    if room > 0 {
        if let Some(n) = add_span(last, sp) {
            if !before(now, n) {
                lemma_catch_up_after_spacing(n, sp, now, (room - 1) as nat);
                let all = catch_up_after(last, sp, now, room);
                let rest = catch_up_after(n, sp, now, (room - 1) as nat);
                assert forall|i: int| 0 <= i < all.len() - 1 implies add_span(#[trigger] all[i], sp) == Some(all[i + 1]) by {
                    assert(all[i + 1] == rest[i]);
                    if i > 0 {
                        assert(all[i] == rest[i - 1]);
                    }
                };
            }
        }
    }
}

/// The occurrences a catch-up tick creates for a duration schedule lie one
/// duration apart: each is the one before it plus the schedule's span.
pub proof fn lemma_catch_up_spacing(d: StdDuration, scheduled_for: Timestamp, now: Timestamp)
    ensures
        span_of(d) matches Some(sp) ==> {
            let occ = tick_occurrences(MissedRunPolicy::CatchUp, ScheduleView::Duration(d), scheduled_for, now);
            forall|i: int| 0 <= i < occ.len() - 1 ==> add_span(#[trigger] occ[i], sp) == Some(occ[i + 1])
        },
{
    if let Some(sp) = span_of(d) {
        lemma_catch_up_after_spacing(scheduled_for, sp, now, 9);
        let occ = tick_occurrences(MissedRunPolicy::CatchUp, ScheduleView::Duration(d), scheduled_for, now);
        let rest = catch_up_after(scheduled_for, sp, now, 9);
        assert forall|i: int| 0 <= i < occ.len() - 1 implies add_span(#[trigger] occ[i], sp) == Some(occ[i + 1]) by {
            assert(occ[i + 1] == rest[i]);
            if i > 0 {
                assert(occ[i] == rest[i - 1]);
            }
        };
    }
}

/// The catch-up occurrences for a job due at `scheduled_for`.
fn catch_up_list(schedule: &Schedule, scheduled_for: Timestamp, now: Timestamp) -> (r: Vec<Timestamp>)
    requires
        valid_timestamp(scheduled_for),
    ensures
        r@ == catch_up_occurrences(schedule@, scheduled_for, now),
        forall|i: int| 0 <= i < r@.len() ==> valid_timestamp(#[trigger] r@[i]),
{
    let mut occurrences: Vec<Timestamp> = Vec::new();
    occurrences.push(scheduled_for);
    let mut last_processed = scheduled_for;
    if let Schedule::Duration(duration) = schedule {
        if let Some(sp) = span_from_std(*duration) {
            let ghost full = catch_up_after(scheduled_for, sp, now, 9);
            while occurrences.len() < CATCH_UP_LIMIT
                invariant
                    1 <= occurrences@.len() <= CATCH_UP_LIMIT,
                    crate::time::valid_span(sp),
                    valid_timestamp(last_processed),
                    last_processed == occurrences@.last(),
                    occurrences@[0] == scheduled_for,
                    occurrences@.drop_first() + catch_up_after(
                        last_processed,
                        sp,
                        now,
                        (CATCH_UP_LIMIT - occurrences@.len()) as nat,
                    ) == full,
                    forall|i: int| 0 <= i < occurrences@.len() ==> valid_timestamp(#[trigger] occurrences@[i]),
                ensures
                    occurrences@.drop_first() == full,
                    occurrences@[0] == scheduled_for,
                    forall|i: int| 0 <= i < occurrences@.len() ==> valid_timestamp(#[trigger] occurrences@[i]),
                decreases CATCH_UP_LIMIT - occurrences@.len(),
            {
                let next = match checked_add(last_processed, sp) {
                    Some(n) => n,
                    None => {
                        assert(catch_up_after(last_processed, sp, now, (CATCH_UP_LIMIT - occurrences@.len()) as nat) =~= Seq::empty());
                        assert(occurrences@.drop_first() + Seq::<Timestamp>::empty() =~= occurrences@.drop_first());
                        break;
                    },
                };
                if is_before(now, next) {
                    assert(catch_up_after(last_processed, sp, now, (CATCH_UP_LIMIT - occurrences@.len()) as nat) =~= Seq::empty());
                    assert(occurrences@.drop_first() + Seq::<Timestamp>::empty() =~= occurrences@.drop_first());
                    break;
                }
                let ghost before_push = occurrences@;
                occurrences.push(next);
                last_processed = next;
                assert(occurrences@.drop_first() =~= before_push.drop_first().push(next));
                assert(before_push.drop_first() + catch_up_after(
                    before_push.last(),
                    sp,
                    now,
                    (CATCH_UP_LIMIT - before_push.len()) as nat,
                ) =~= occurrences@.drop_first() + catch_up_after(
                    next,
                    sp,
                    now,
                    (CATCH_UP_LIMIT - occurrences@.len()) as nat,
                ));
            }
            assert(occurrences@ =~= seq![scheduled_for] + full);
            return occurrences;
        }
    }
    assert(occurrences@ =~= seq![scheduled_for]);
    occurrences
}

/// The tick for a job due at `scheduled_for`, seen at `now`: a skipped job
/// that is late creates nothing; a run-once job (or a skipped one that is on
/// time) creates the due occurrence; a catch-up job creates the missed
/// occurrences. The job then moves on from `now`, or from the last caught-up one.
fn missed_run_policy_tick(job: &CronJob, scheduled_for: Timestamp, now: Timestamp) -> (r: PolicyTick)
    requires
        valid_timestamp(scheduled_for),
        valid_timestamp(now),
        schedule_readable(job.schedule@),
        next_run_defined(
            job.schedule@,
            tick_last_run(job.missed_run_policy, job.schedule@, scheduled_for, now),
        ),
    ensures
        r.occurrences@ == tick_occurrences(job.missed_run_policy, job.schedule@, scheduled_for, now),
        r.last_run_at == tick_last_run(job.missed_run_policy, job.schedule@, scheduled_for, now),
        r.next_run_at == next_run(job.schedule@, r.last_run_at),
{
    match job.missed_run_policy {
        MissedRunPolicy::CatchUp => {
            let occurrences = catch_up_list(&job.schedule, scheduled_for, now);
            let last = occurrences[occurrences.len() - 1];
            let next = job.schedule.next_after(last);
            PolicyTick { occurrences, last_run_at: last, next_run_at: next }
        },
        MissedRunPolicy::Skip => {
            let next = job.schedule.next_after(now);
            if is_before(scheduled_for, now) {
                PolicyTick { occurrences: Vec::new(), last_run_at: now, next_run_at: next }
            } else {
                let mut occurrences = Vec::new();
                occurrences.push(scheduled_for);
                assert(occurrences@ =~= seq![scheduled_for]);
                PolicyTick { occurrences, last_run_at: now, next_run_at: next }
            }
        },
        MissedRunPolicy::RunOnce => {
            let next = job.schedule.next_after(now);
            let mut occurrences = Vec::new();
            occurrences.push(scheduled_for);
            assert(occurrences@ =~= seq![scheduled_for]);
            PolicyTick { occurrences, last_run_at: now, next_run_at: next }
        },
    }
}

/// The tick for a job due at `scheduled_for`, seen at `now` (see
/// `missed_run_policy_tick`); `None` when moving the job on would leave the
/// range of instants chrono can hold.
pub fn plan_policy_tick(job: &CronJob, scheduled_for: Timestamp, now: Timestamp) -> (r: Option<PolicyTick>)
    requires
        valid_timestamp(scheduled_for),
        valid_timestamp(now),
        schedule_readable(job.schedule@),
    ensures
        r is None <==> !next_run_defined(
            job.schedule@,
            tick_last_run(job.missed_run_policy, job.schedule@, scheduled_for, now),
        ),
        r matches Some(t) ==> {
            &&& t.occurrences@ == tick_occurrences(job.missed_run_policy, job.schedule@, scheduled_for, now)
            &&& t.last_run_at == tick_last_run(job.missed_run_policy, job.schedule@, scheduled_for, now)
            &&& t.next_run_at == next_run(job.schedule@, t.last_run_at)
        },
{
    let last = match job.missed_run_policy {
        MissedRunPolicy::CatchUp => {
            let occurrences = catch_up_list(&job.schedule, scheduled_for, now);
            occurrences[occurrences.len() - 1]
        },
        _ => now,
    };
    if job.schedule.checked_next_after(last).is_none() {
        return None;
    }
    Some(missed_run_policy_tick(job, scheduled_for, now))
}

pub fn map_payload_kind(kind: PayloadKind) -> (r: kanban::PayloadKind)
    ensures
        r == map_payload_kind_spec(kind),
{
    match kind {
        PayloadKind::AgentPrompt => kanban::PayloadKind::AgentPrompt,
        PayloadKind::ShellCommand => kanban::PayloadKind::ShellCommand,
    }
}

/// The task a cron job's occurrence becomes: sourced from `cron` and the job's
/// id, titled by its name, with its description and payload, priority 0 and
/// one retry.
pub fn new_task(job: &CronJob) -> (r: NewTask)
    ensures
        r.source@ == "cron"@,
        r.source_id matches Some(i) && i@ == job.id@,
        r.title@ == job.name@,
        r.body@ == job.description@,
        r.payload_kind == map_payload_kind_spec(job.payload_kind),
        r.payload_json@ == job.payload_json@,
        r.priority == 0,
        r.max_retries == 1,
{
    NewTask {
        source: owned("cron"),
        source_id: Some(job.id.clone()),
        title: job.name.clone(),
        body: job.description.clone(),
        payload_kind: map_payload_kind(job.payload_kind),
        payload_json: job.payload_json.clone(),
        priority: 0,
        max_retries: 1,
    }
}

pub open spec fn map_payload_kind_spec(kind: PayloadKind) -> kanban::PayloadKind {
    match kind {
        PayloadKind::AgentPrompt => kanban::PayloadKind::AgentPrompt,
        PayloadKind::ShellCommand => kanban::PayloadKind::ShellCommand,
    }
}

/// An occurrence gets a task when this tick reserved its trigger, or when a
/// trigger stored earlier is still only reserved (its task was never made);
/// a trigger whose task was created is done.
pub fn occurrence_creates_task(newly_reserved: bool, stored_status: Option<&str>) -> (r: bool)
    ensures
        r == (newly_reserved || (stored_status matches Some(s) && s@ == "reserved"@)),
{
    if newly_reserved {
        return true;
    }
    match stored_status {
        Some(s) => crate::text::str_eq(s, "reserved"),
        None => false,
    }
}

} // verus!
