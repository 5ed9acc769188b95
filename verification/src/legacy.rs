//! The legacy cron file: what its text holds, which entries are imported, and
//! the job each one becomes.
use vstd::prelude::*;
use crate::json::{
    json_array, json_as_array, json_as_bool, json_as_str, json_bool, json_field, json_get, json_str,
    field_str, json_text, json_to_text, json_value_of, opt_text, read_json_value, read_str_field,
};
use crate::schedule::{
    MissedRunPolicy, PayloadKind, Schedule, ScheduleView, duration_text_is_readable,
    duration_text_readable, parse_schedule,
};
use crate::scheduler::{NewCronJob, NewCronJobView};
use crate::text::{join3, owned, str_eq};

verus! {

/// The schedule of a legacy entry: a text to read as a schedule; a JSON value
/// of another kind, held as its JSON text until it is read as a stored
/// schedule; or the stored schedule read from it (none when it is not one).
#[derive(Debug, Clone, PartialEq, Eq)]
pub enum LegacySchedule {
    Text(String),
    Value(String),
    Stored(Option<Schedule>),
}

/// A legacy entry as read from the file: each field present when it had the
/// expected JSON type.
#[derive(Debug, Clone, PartialEq, Eq)]
pub struct LegacyJob {
    pub id: Option<String>,
    pub schedule: Option<LegacySchedule>,
    pub command: Option<String>,
    pub name: Option<String>,
    pub description: Option<String>,
    pub enabled: Option<bool>,
}

pub ghost enum LegacyScheduleView {
    Text(Seq<char>),
    Value(Seq<char>),
    Stored(Option<ScheduleView>),
}

pub ghost struct LegacyJobView {
    pub id: Option<Seq<char>>,
    pub schedule: Option<LegacyScheduleView>,
    pub command: Option<Seq<char>>,
    pub name: Option<Seq<char>>,
    pub description: Option<Seq<char>>,
    pub enabled: Option<bool>,
}

impl View for LegacySchedule {
    type V = LegacyScheduleView;

    open spec fn view(&self) -> LegacyScheduleView {
        match self {
            LegacySchedule::Text(t) => LegacyScheduleView::Text(t@),
            LegacySchedule::Value(t) => LegacyScheduleView::Value(t@),
            LegacySchedule::Stored(Some(s)) => LegacyScheduleView::Stored(Some(s@)),
            LegacySchedule::Stored(None) => LegacyScheduleView::Stored(None),
        }
    }
}

impl View for LegacyJob {
    type V = LegacyJobView;

    open spec fn view(&self) -> LegacyJobView {
        LegacyJobView {
            id: opt_text(self.id),
            schedule: match self.schedule {
                Some(s) => Some(s@),
                None => None,
            },
            command: opt_text(self.command),
            name: opt_text(self.name),
            description: opt_text(self.description),
            enabled: self.enabled,
        }
    }
}

/// The schedule a legacy entry stands for, if it can be read: a text read as a
/// schedule, or a stored schedule; a value not yet read stands for none.
pub open spec fn legacy_schedule_of(s: Option<LegacyScheduleView>) -> Option<ScheduleView> {
    match s {
        Some(LegacyScheduleView::Text(t)) => parse_schedule(t),
        Some(LegacyScheduleView::Stored(Some(x))) => Some(x),
        _ => None,
    }
}

/// Reading a legacy entry's text schedule does not fail on the way (see
/// `Schedule::parse`).
pub open spec fn legacy_entry_readable(job: LegacyJobView) -> bool {
    job.schedule matches Some(LegacyScheduleView::Text(t)) ==> duration_text_readable(t)
}

pub open spec fn legacy_readable(job: LegacyJob) -> bool {
    legacy_entry_readable(job@)
}

/// A lower-case hexadecimal digit.
pub open spec fn hex_digit(n: int) -> char {
    if n < 10 {
        (48 + n) as char
    } else {
        (87 + n) as char
    }
}

/// How serde_json writes one character inside a JSON string: a quote and a
/// backslash escaped with a backslash, the control characters backspace, tab,
/// line feed, form feed and carriage return as `\b \t \n \f \r`, the other
/// control characters as `\u00` and two lower-case hexadecimal digits, and
/// every other character as itself.
pub open spec fn json_escape(c: char) -> Seq<char> {
    if c == '"' {
        seq!['\\', '"']
    } else if c == '\\' {
        seq!['\\', '\\']
    } else if c == '\u{8}' {
        seq!['\\', 'b']
    } else if c == '\t' {
        seq!['\\', 't']
    } else if c == '\n' {
        seq!['\\', 'n']
    } else if c == '\u{c}' {
        seq!['\\', 'f']
    } else if c == '\r' {
        seq!['\\', 'r']
    } else if (c as int) < 32 {
        seq!['\\', 'u', '0', '0', hex_digit((c as int) / 16), hex_digit((c as int) % 16)]
    } else {
        seq![c]
    }
}

/// The characters of `s`, each written as `json_escape` says.
pub open spec fn json_escaped(s: Seq<char>) -> Seq<char>
    decreases s.len(),
{
    if s.len() == 0 {
        Seq::empty()
    } else {
        json_escaped(s.drop_last()) + json_escape(s.last())
    }
}

/// The JSON text of a string, as `serde_json::to_string` writes it: the string
/// quoted, with its characters escaped.
pub open spec fn json_string_text(s: Seq<char>) -> Seq<char> {
    seq!['"'] + json_escaped(s) + seq!['"']
}

/// Writes a string as JSON text with `serde_json::to_string`, which cannot fail
/// for a string.
#[verifier::external_body]
fn write_json_string(s: &str) -> (r: String)
    ensures
        r@ == json_string_text(s@),
{
    serde_json::to_string(s).unwrap_or_default()
}

/// The payload of an imported job: an object holding the command as its prompt.
pub open spec fn prompt_payload_text(command: Seq<char>) -> Seq<char> {
    "{\"prompt\":"@ + json_string_text(command) + "}"@
}

pub fn prompt_payload(command: &str) -> (r: String)
    ensures
        r@ == prompt_payload_text(command@),
{
    let encoded = write_json_string(command);
    join3("{\"prompt\":", encoded.as_str(), "}")
}

fn copy_schedule(s: &Schedule) -> (r: Schedule)
    ensures
        r@ == s@,
{
    match s {
        Schedule::Duration(d) => Schedule::Duration(*d),
        Schedule::Every(t) => Schedule::Every(t.clone()),
        Schedule::Cron(t) => Schedule::Cron(t.clone()),
        Schedule::Once(t) => Schedule::Once(*t),
    }
}

/// The job a legacy entry is imported as, with its identifier: only entries
/// with an identifier, a readable schedule and a command are imported. The job
/// runs the command as an agent prompt, once for missed runs; its name defaults
/// to the command, its description to nothing, and it is enabled unless the
/// entry says otherwise.
#[verifier::opaque]
pub open spec fn legacy_import(job: LegacyJobView) -> Option<(Seq<char>, NewCronJobView)> {
    match (job.id, legacy_schedule_of(job.schedule), job.command) {
        (Some(id), Some(schedule), Some(c)) => Some(
            (
                id,
                NewCronJobView {
                    name: match job.name {
                        Some(n) => n,
                        None => c,
                    },
                    description: match job.description {
                        Some(d) => d,
                        None => Seq::<char>::empty(),
                    },
                    schedule,
                    payload_kind: PayloadKind::AgentPrompt,
                    payload_json: prompt_payload_text(c),
                    enabled: match job.enabled {
                        Some(e) => e,
                        None => true,
                    },
                    missed_run_policy: MissedRunPolicy::RunOnce,
                },
            ),
        ),
        _ => None,
    }
}

pub fn legacy_job_to_new(job: &LegacyJob) -> (r: Option<(String, NewCronJob)>)
    requires
        legacy_readable(*job),
    ensures
        r is Some <==> legacy_import(job@) is Some,
        r matches Some((id, new_job)) ==> legacy_import(job@) == Some((id@, new_job@)),
{
    proof {
        reveal(legacy_import);
    }
    let id = match &job.id {
        Some(i) => i.clone(),
        None => return None,
    };
    let schedule = match &job.schedule {
        Some(LegacySchedule::Text(t)) => match Schedule::parse(t.as_str()) {
            Ok(s) => s,
            Err(_) => return None,
        },
        Some(LegacySchedule::Stored(Some(s))) => copy_schedule(s),
        _ => return None,
    };
    let command = match &job.command {
        Some(c) => c,
        None => return None,
    };
    let name = match &job.name {
        Some(n) => n.clone(),
        None => command.clone(),
    };
    let description = match &job.description {
        Some(d) => d.clone(),
        None => String::new(),
    };
    let enabled = match job.enabled {
        Some(e) => e,
        None => true,
    };
    Some((id, NewCronJob {
        name,
        description,
        schedule,
        payload_kind: PayloadKind::AgentPrompt,
        payload_json: prompt_payload(command.as_str()),
        enabled,
        missed_run_policy: MissedRunPolicy::RunOnce,
    }))
}

/// What a legacy entry of the file holds: its `id`, `command`, `name` and
/// `description` where they are strings, `enabled` where it is a boolean, and
/// its `schedule` as a text where it is a string, else as its JSON text.
pub open spec fn legacy_entry_of(entry: serde_json::Value) -> LegacyJobView {
    LegacyJobView {
        id: field_str(entry, "id"@),
        schedule: match json_field(entry, "schedule"@) {
            Some(v) => Some(
                match json_str(v) {
                    Some(t) => LegacyScheduleView::Text(t),
                    None => LegacyScheduleView::Value(json_text(v)),
                },
            ),
            None => None,
        },
        command: field_str(entry, "command"@),
        name: field_str(entry, "name"@),
        description: field_str(entry, "description"@),
        enabled: match json_field(entry, "enabled"@) {
            Some(v) => json_bool(v),
            None => None,
        },
    }
}

/// Reads one entry of a legacy file.
pub fn read_legacy_entry(entry: &serde_json::Value) -> (r: LegacyJob)
    ensures
        r@ == legacy_entry_of(*entry),
{
    let schedule = match json_get(entry, "schedule") {
        Some(v) => Some(
            match json_as_str(&v) {
                Some(t) => LegacySchedule::Text(t),
                None => LegacySchedule::Value(json_to_text(&v)),
            },
        ),
        None => None,
    };
    let enabled = match json_get(entry, "enabled") {
        Some(v) => json_as_bool(&v),
        None => None,
    };
    LegacyJob {
        id: read_str_field(entry, "id"),
        schedule,
        command: read_str_field(entry, "command"),
        name: read_str_field(entry, "name"),
        description: read_str_field(entry, "description"),
        enabled,
    }
}

/// The error for a legacy file whose JSON is not an array.
pub open spec fn not_array_text() -> Seq<char> {
    "legacy cron jobs file must be a JSON array"@
}

pub open spec fn jobs_view(jobs: Seq<LegacyJob>) -> Seq<LegacyJobView> {
    jobs.map_values(|j: LegacyJob| j@)
}

/// What a legacy file's text holds: its entries in file order, or the JSON
/// error where the text is not JSON, or `not_array_text` where it is JSON but
/// not an array.
pub open spec fn legacy_file(text: Seq<char>) -> Result<Seq<LegacyJobView>, Seq<char>> {
    match json_value_of(text) {
        Err(m) => Err(m),
        Ok(v) => match json_array(v) {
            None => Err(not_array_text()),
            Some(items) => Ok(items.map_values(|e: serde_json::Value| legacy_entry_of(e))),
        },
    }
}

/// Reads the entries of a legacy cron file.
pub fn legacy_entries(text: &str) -> (r: Result<Vec<LegacyJob>, String>)
    ensures
        match r {
            Ok(jobs) => legacy_file(text@) == Ok::<Seq<LegacyJobView>, Seq<char>>(jobs_view(jobs@)),
            Err(e) => legacy_file(text@) == Err::<Seq<LegacyJobView>, Seq<char>>(e@),
        },
{
    let value = match read_json_value(text) {
        Ok(v) => v,
        Err(e) => return Err(e),
    };
    let items = match json_as_array(&value) {
        Some(items) => items,
        None => return Err(owned("legacy cron jobs file must be a JSON array")),
    };
    let mut jobs: Vec<LegacyJob> = Vec::new();
    let mut i: usize = 0;
    while i < items.len()
        invariant
            i <= items.len(),
            jobs@.len() == i,
            forall|k: int| 0 <= k < i ==> #[trigger] jobs@[k]@ == legacy_entry_of(items@[k]),
        decreases items.len() - i,
    {
        let job = read_legacy_entry(&items[i]);
        jobs.push(job);
        i += 1;
    }
    assert(jobs_view(jobs@) =~= items@.map_values(|e: serde_json::Value| legacy_entry_of(e)));
    Ok(jobs)
}

/// Some job of `plan` has identifier `id`.
pub open spec fn plan_has_id(plan: Seq<(Seq<char>, NewCronJobView)>, id: Seq<char>) -> bool {
    exists|k: int| 0 <= k < plan.len() && (#[trigger] plan[k]).0 == id
}

/// The import reaches an entry `job` after importing `before`: its identifier
/// is neither stored nor imported already, so its schedule is read.
pub open spec fn reaches(before: Seq<(Seq<char>, NewCronJobView)>, job: LegacyJobView, existing: Set<Seq<char>>) -> bool {
    job.id matches Some(i) && !existing.contains(i) && !plan_has_id(before, i)
}

/// The import after `before` with one more entry `job`.
pub open spec fn plan_step(before: Seq<(Seq<char>, NewCronJobView)>, job: LegacyJobView, existing: Set<Seq<char>>) -> Seq<(Seq<char>, NewCronJobView)> {
    if reaches(before, job, existing) {
        match legacy_import(job) {
            Some(p) => before.push(p),
            None => before,
        }
    } else {
        before
    }
}

/// The jobs imported from `jobs`, in file order, into a store that already
/// holds the identifiers `existing`: each entry that `legacy_import` takes,
/// unless its identifier is stored already or was imported from an earlier
/// entry.
pub open spec fn legacy_plan(jobs: Seq<LegacyJobView>, existing: Set<Seq<char>>) -> Seq<(Seq<char>, NewCronJobView)>
    decreases jobs.len(),
{
    if jobs.len() == 0 {
        Seq::empty()
    } else {
        plan_step(legacy_plan(jobs.drop_last(), existing), jobs.last(), existing)
    }
}

/// The import reaches entry `k` of `jobs`.
pub open spec fn legacy_reached(jobs: Seq<LegacyJobView>, existing: Set<Seq<char>>, k: int) -> bool {
    reaches(legacy_plan(jobs.take(k), existing), jobs[k], existing)
}

/// Every entry that the import reaches has a schedule that can be read.
pub open spec fn legacy_plan_readable(jobs: Seq<LegacyJobView>, existing: Set<Seq<char>>) -> bool {
    forall|k: int|
        0 <= k < jobs.len() && legacy_reached(jobs, existing, k) ==> legacy_entry_readable(
            #[trigger] jobs[k],
        )
}

proof fn lemma_plan_take(jobs: Seq<LegacyJobView>, existing: Set<Seq<char>>, i: int)
    requires
        0 <= i < jobs.len(),
    ensures
        legacy_plan(jobs.take(i + 1), existing) == plan_step(legacy_plan(jobs.take(i), existing), jobs[i], existing),
{
    assert(jobs.take(i + 1).drop_last() =~= jobs.take(i));
}

pub open spec fn id_set(ids: Seq<String>) -> Set<Seq<char>> {
    Set::new(|i: Seq<char>| exists|k: int| 0 <= k < ids.len() && (#[trigger] ids[k])@ == i)
}

pub open spec fn plan_view(plan: Seq<(String, NewCronJob)>) -> Seq<(Seq<char>, NewCronJobView)> {
    plan.map_values(|p: (String, NewCronJob)| (p.0@, p.1@))
}

/// `ids` names the identifiers of `plan`, one for one.
pub open spec fn mirrors(ids: Seq<String>, plan: Seq<(String, NewCronJob)>) -> bool {
    &&& ids.len() == plan.len()
    &&& forall|k: int| 0 <= k < plan.len() ==> (#[trigger] ids[k])@ == plan[k].0@
}

fn contains_id(ids: &Vec<String>, id: &str) -> (r: bool)
    ensures
        r == id_set(ids@).contains(id@),
{
    let mut k: usize = 0;
    while k < ids.len()
        invariant
            k <= ids.len(),
            forall|j: int| 0 <= j < k ==> (#[trigger] ids@[j])@ != id@,
        decreases ids.len() - k,
    {
        if str_eq(ids[k].as_str(), id) {
            return true;
        }
        k += 1;
    }
    false
}

/// Imports one entry after those in `plan`, whose identifiers `planned`
/// holds; false where the entry is reached and its schedule cannot be read.
fn import_entry(
    job: &LegacyJob,
    existing: &Vec<String>,
    plan: &mut Vec<(String, NewCronJob)>,
    planned: &mut Vec<String>,
) -> (ok: bool)
    requires
        mirrors(old(planned)@, old(plan)@),
    ensures
        ok <==> (reaches(plan_view(old(plan)@), job@, id_set(existing@)) ==> legacy_entry_readable(job@)),
        ok ==> plan_view(final(plan)@) == plan_step(plan_view(old(plan)@), job@, id_set(existing@)),
        mirrors(final(planned)@, final(plan)@),
{
    let ghost before = plan_view(plan@);
    let ghost known = id_set(existing@);
    let id = match &job.id {
        Some(i) => i,
        None => return true,
    };
    if contains_id(existing, id.as_str()) {
        return true;
    }
    if contains_id(planned, id.as_str()) {
        assert(plan_has_id(before, id@)) by {
            let k = choose|k: int| 0 <= k < planned@.len() && (#[trigger] planned@[k])@ == id@;
            assert(before[k] == (plan@[k].0@, plan@[k].1@));
        };
        return true;
    }
    assert(!plan_has_id(before, id@)) by {
        if plan_has_id(before, id@) {
            let k = choose|k: int| 0 <= k < before.len() && (#[trigger] before[k]).0 == id@;
            assert(before[k] == (plan@[k].0@, plan@[k].1@));
            assert(planned@[k]@ == id@);
            assert(id_set(planned@).contains(id@));
        }
    };
    let readable = match &job.schedule {
        Some(LegacySchedule::Text(t)) => duration_text_is_readable(t.as_str()),
        _ => true,
    };
    if !readable {
        return false;
    }
    match legacy_job_to_new(job) {
        Some((new_id, new_job)) => {
            planned.push(new_id.clone());
            plan.push((new_id, new_job));
            assert(plan_view(plan@) =~= before.push(legacy_import(job@).unwrap()));
        },
        None => {},
    }
    true
}

/// The jobs to create when importing `jobs` into a store that holds the
/// identifiers `existing`, in file order. None where an entry that the import
/// reaches has a text schedule that cannot be read without failing.
pub fn legacy_import_plan(jobs: &Vec<LegacyJob>, existing: &Vec<String>) -> (r: Option<Vec<(String, NewCronJob)>>)
    ensures
        r is Some <==> legacy_plan_readable(jobs_view(jobs@), id_set(existing@)),
        r matches Some(plan) ==> plan_view(plan@) == legacy_plan(jobs_view(jobs@), id_set(existing@)),
{
    let ghost jv = jobs_view(jobs@);
    let ghost known = id_set(existing@);
    let mut plan: Vec<(String, NewCronJob)> = Vec::new();
    let mut planned: Vec<String> = Vec::new();
    assert(plan_view(plan@) =~= legacy_plan(jv.take(0), known));
    let mut i: usize = 0;
    while i < jobs.len()
        invariant
            i <= jobs.len(),
            jv == jobs_view(jobs@),
            known == id_set(existing@),
            plan_view(plan@) == legacy_plan(jv.take(i as int), known),
            mirrors(planned@, plan@),
            forall|k: int|
                0 <= k < i && legacy_reached(jv, known, k) ==> legacy_entry_readable(#[trigger] jv[k]),
        decreases jobs.len() - i,
    {
        proof {
            lemma_plan_take(jv, known, i as int);
        }
        assert(jv[i as int] == jobs@[i as int]@);
        if !import_entry(&jobs[i], existing, &mut plan, &mut planned) {
            assert(legacy_reached(jv, known, i as int));
            return None;
        }
        i += 1;
    }
    assert(jv.take(jobs.len() as int) =~= jv);
    Some(plan)
}

/// The identifiers of the jobs in `plan`.
pub open spec fn plan_ids(plan: Seq<(Seq<char>, NewCronJobView)>) -> Set<Seq<char>> {
    Set::new(|i: Seq<char>| plan_has_id(plan, i))
}

proof fn lemma_import_keeps_id(job: LegacyJobView)
    ensures
        legacy_import(job) matches Some(p) ==> job.id == Some(p.0),
{
    reveal(legacy_import);
}

proof fn lemma_step_keeps_ids(before: Seq<(Seq<char>, NewCronJobView)>, job: LegacyJobView, existing: Set<Seq<char>>, i: Seq<char>)
    requires
        plan_has_id(before, i),
    ensures
        plan_has_id(plan_step(before, job, existing), i),
{
    let k = choose|k: int| 0 <= k < before.len() && (#[trigger] before[k]).0 == i;
    let after = plan_step(before, job, existing);
    assert(after[k] == before[k]);
}

/// What the import of a prefix of the entries took, the import of all of them took too.
proof fn lemma_prefix_ids(jobs: Seq<LegacyJobView>, existing: Set<Seq<char>>, k: int, i: Seq<char>)
    requires
        0 <= k <= jobs.len(),
        plan_has_id(legacy_plan(jobs.take(k), existing), i),
    ensures
        plan_has_id(legacy_plan(jobs, existing), i),
    decreases jobs.len(),
{
    if k == jobs.len() {
        assert(jobs.take(k) =~= jobs);
    } else {
        let front = jobs.drop_last();
        assert(front.take(k) =~= jobs.take(k));
        lemma_prefix_ids(front, existing, k, i);
        lemma_step_keeps_ids(legacy_plan(front, existing), jobs.last(), existing, i);
    }
}

/// Once every identifier that an import took is known, importing the same
/// entries again takes nothing.
proof fn lemma_known_ids_import_nothing(jobs: Seq<LegacyJobView>, existing: Set<Seq<char>>, known: Set<Seq<char>>)
    requires
        existing.subset_of(known),
        plan_ids(legacy_plan(jobs, existing)).subset_of(known),
    ensures
        legacy_plan(jobs, known).len() == 0,
    decreases jobs.len(),
{
    if jobs.len() > 0 {
        let front = jobs.drop_last();
        let job = jobs.last();
        let before = legacy_plan(front, existing);
        assert forall|i: Seq<char>| plan_ids(before).contains(i) implies known.contains(i) by {
            lemma_step_keeps_ids(before, job, existing, i);
            assert(plan_ids(legacy_plan(jobs, existing)).contains(i));
        };
        lemma_known_ids_import_nothing(front, existing, known);
        lemma_import_keeps_id(job);
        if reaches(legacy_plan(front, known), job, known) && legacy_import(job) is Some {
            let i = job.id.unwrap();
            let p = legacy_import(job).unwrap();
            assert(!plan_ids(before).contains(i));
            assert(reaches(before, job, existing));
            let after = before.push(p);
            assert(after[before.len() as int].0 == i);
            assert(plan_ids(legacy_plan(jobs, existing)).contains(i));
        }
    }
}

/// A second import of the same entries, into a store that now also holds the
/// jobs the first import created, creates nothing, and fails on no entry where
/// the first did not.
pub proof fn lemma_second_import_adds_nothing(jobs: Seq<LegacyJobView>, existing: Set<Seq<char>>)
    ensures
        legacy_plan(jobs, existing.union(plan_ids(legacy_plan(jobs, existing)))).len() == 0,
        legacy_plan_readable(jobs, existing) ==> legacy_plan_readable(
            jobs,
            existing.union(plan_ids(legacy_plan(jobs, existing))),
        ),
{
    let known = existing.union(plan_ids(legacy_plan(jobs, existing)));
    lemma_known_ids_import_nothing(jobs, existing, known);
    if legacy_plan_readable(jobs, existing) {
        assert forall|k: int|
            0 <= k < jobs.len() && legacy_reached(jobs, known, k) implies legacy_entry_readable(
            #[trigger] jobs[k],
        ) by {
            assert(jobs.take(k).len() == k);
            assert forall|i: Seq<char>| plan_ids(legacy_plan(jobs.take(k), existing)).contains(i) implies known.contains(i) by {
                lemma_prefix_ids(jobs, existing, k, i);
            };
            lemma_known_ids_import_nothing(jobs.take(k), existing, known);
            let i = jobs[k].id.unwrap();
            if plan_has_id(legacy_plan(jobs.take(k), existing), i) {
                lemma_prefix_ids(jobs, existing, k, i);
            }
            assert(legacy_reached(jobs, existing, k));
        };
    }
}

} // verus!
