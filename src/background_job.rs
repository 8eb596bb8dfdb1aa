//! Background jobs: deciding on each invocation whether a named command
//! must be started again, from what its job directory and the process
//! table show, and the text that records and reports it.
//!
//! Each job has a directory holding a PID marker (`job.pid`, the process
//! id of the running monitor), a status marker (`job.status`), a last-run
//! marker (`job.last_run`, whose modification time is the end of the last
//! run) and a log (`job.logs`). The monitor, a detached shell, runs the
//! command, writes `success` or `failed`, and touches the last-run marker.
//! Nothing locks the directory: two invocations that look at a job at the
//! same moment may both start it.
use vstd::prelude::*;

use std::collections::hash_map::DefaultHasher;
use std::hash::Hasher;
use vstd::std_specs::hash::DefaultHasherAdditionalSpecFns;
use vstd::string::StringSliceAdditionalSpecFns;

use crate::chars::{opt_view, chars_of, contains, occurs_in, push_char, push_str, strs_view, trim, trimmed};
use crate::error::error_text;
use crate::shell::{escape_command, escaped, joined, push_escaped};
use crate::paths::{join, path_join};
use crate::icon::{ICON_ALERT_CAUTION_BADGE, ICON_CLOCK};
use crate::{Error, Icon, Item};

verus! {

/// The PID marker: the id of the running monitor.
pub const PID_FILE: &'static str = "job.pid";

/// The status marker: `success`, `failed`, `running` or `unknown`.
pub const STATUS_FILE: &'static str = "job.status";

/// The last-run marker, whose modification time ends each run.
pub const LAST_RUN_FILE: &'static str = "job.last_run";

/// The command's combined output.
pub const LOG_FILE: &'static str = "job.logs";

/// A lower-case hexadecimal digit.
pub open spec fn hex_digit(d: nat) -> char {
    if d < 10 {
        (('0' as nat) + d) as char
    } else {
        (('a' as nat) + d - 10) as char
    }
}

/// `n` in lower-case hexadecimal, without leading zeros.
pub open spec fn hex_of(n: nat) -> Seq<char>
    decreases n,
{
    if n < 16 {
        seq![hex_digit(n)]
    } else {
        hex_of(n / 16).push(hex_digit(n % 16))
    }
}

fn digit_char(d: u64) -> (c: char)
    requires
        d < 16,
    ensures
        c == hex_digit(d as nat),
{
    if d < 10 {
        ((48 + d) as u8) as char
    } else {
        ((87 + d) as u8) as char
    }
}

/// `n` in lower-case hexadecimal, without leading zeros.
pub fn hex_string(n: u64) -> (r: String)
    ensures
        r@ == hex_of(n as nat),
    decreases n,
{
    if n < 16 {
        let mut r = String::new();
        push_char(&mut r, digit_char(n));
        assert(r@ =~= hex_of(n as nat));
        r
    } else {
        let mut r = hex_string(n / 16);
        push_char(&mut r, digit_char(n % 16));
        r
    }
}

/// The bytes that the job name is hashed from: those of the name, then
/// `0xff`, as `Hash` for `str` feeds them to a hasher.
pub open spec fn job_hash(name: &str) -> u64 {
    DefaultHasher::spec_finish(seq![name.spec_bytes(), seq![0xffu8]])
}

/// The directory name of the job called `name`: its hash, in hexadecimal.
pub fn job_id(name: &str) -> (r: String)
    ensures
        r@ == hex_of(job_hash(name) as nat),
{
    let mut h = DefaultHasher::new();
    let bytes = name.as_bytes();
    h.write(bytes);
    let end: Vec<u8> = vec![0xffu8];
    let end_bytes = end.as_slice();
    assert(end_bytes@ =~= seq![0xffu8]);
    h.write(end_bytes);
    assert(h@ =~= seq![name.spec_bytes(), seq![0xffu8]]);
    hex_string(h.finish())
}

/// The directory of the job called `name` under `jobs_dir`.
pub fn job_dir(jobs_dir: &str, name: &str) -> (r: String)
    ensures
        r@ == path_join(jobs_dir@, hex_of(job_hash(name) as nat)),
{
    let id = job_id(name);
    join(jobs_dir, id.as_str())
}

/// The last known outcome of a job.
#[derive(Debug, Clone, Copy, PartialEq, Eq, Structural, Hash)]
pub enum JobExecutionStatus {
    Success,
    Failed,
    Running,
    Unknown,
}

/// The text of a status marker.
pub open spec fn status_text(s: JobExecutionStatus) -> Seq<char> {
    match s {
        JobExecutionStatus::Success => "success"@,
        JobExecutionStatus::Failed => "failed"@,
        JobExecutionStatus::Running => "running"@,
        JobExecutionStatus::Unknown => "unknown"@,
    }
}

/// The status that the trimmed text `t` of a marker stands for: anything
/// but the three known words reads as unknown.
pub open spec fn status_of_text(t: Seq<char>) -> JobExecutionStatus {
    if t == "success"@ {
        JobExecutionStatus::Success
    } else if t == "failed"@ {
        JobExecutionStatus::Failed
    } else if t == "running"@ {
        JobExecutionStatus::Running
    } else {
        JobExecutionStatus::Unknown
    }
}

impl JobExecutionStatus {
    /// The text written to the status marker.
    pub fn as_str(&self) -> (r: &'static str)
        ensures
            r@ == status_text(*self),
    {
        match self {
            JobExecutionStatus::Success => "success",
            JobExecutionStatus::Failed => "failed",
            JobExecutionStatus::Running => "running",
            JobExecutionStatus::Unknown => "unknown",
        }
    }

    /// The status that trimmed marker text stands for.
    pub fn from_trimmed(t: &str) -> (r: JobExecutionStatus)
        ensures
            r == status_of_text(t@),
    {
        let s = t.to_owned();
        if s == "success".to_owned() {
            JobExecutionStatus::Success
        } else if s == "failed".to_owned() {
            JobExecutionStatus::Failed
        } else if s == "running".to_owned() {
            JobExecutionStatus::Running
        } else {
            JobExecutionStatus::Unknown
        }
    }

    /// The status that a status marker records; a missing or unreadable
    /// marker (`None`) reads as unknown.
    pub fn from_marker(content: Option<&str>) -> (r: JobExecutionStatus)
        ensures
            r == match content {
                Some(c) => status_of_text(trimmed(c@)),
                None => JobExecutionStatus::Unknown,
            },
    {
        match content {
            Some(c) => JobExecutionStatus::from_trimmed(trim(c)),
            None => JobExecutionStatus::Unknown,
        }
    }
}

/// Milliseconds from `then` to `now`; zero where `then` lies after `now`.
pub open spec fn elapsed(now: u64, then: u64) -> u64 {
    if then <= now {
        (now - then) as u64
    } else {
        0
    }
}

/// The staleness of a job at time `now`: the time since the last-run
/// marker was last modified (`last_run`), or `None` where the marker is
/// missing or unreadable, which counts as no prior run. Times are in
/// milliseconds since the Unix epoch.
pub fn staleness_at(now: u64, last_run: Option<u64>) -> (r: Option<u64>)
    ensures
        r == match last_run {
            Some(t) => Some(elapsed(now, t)),
            None => None,
        },
{
    match last_run {
        Some(t) => if t <= now {
            Some(now - t)
        } else {
            Some(0)
        },
        None => None,
    }
}

/// How long the monitor has been running at time `now`: `started` is the
/// start time of the process with the recorded id, or `None` where no
/// such process exists. Times are in milliseconds since the Unix epoch.
pub fn running_duration_at(now: u64, started: Option<u64>) -> (r: Option<u64>)
    ensures
        r == match started {
            Some(t) => Some(elapsed(now, t)),
            None => None,
        },
{
    staleness_at(now, started)
}

/// What one invocation sees of a job, in milliseconds.
#[derive(Debug, Clone, Copy, PartialEq, Eq)]
pub struct JobSnapshot {
    /// Time since the last run ended; `None` where the job never ran.
    pub staleness: Option<u64>,
    /// Time since the monitor started, where the process in the PID
    /// marker is alive.
    pub running_for: Option<u64>,
    /// Whether a PID marker exists.
    pub pid_marker: bool,
    /// What the status marker reads.
    pub status: JobExecutionStatus,
}

/// The state of a job that one invocation reports.
#[derive(Debug, Clone, Copy, PartialEq, Eq)]
pub enum BackgroundJobStatus {
    /// The last run succeeded less than the maximum age ago.
    Fresh(u64),
    /// Stale, and a monitor is running: staleness, and time running.
    Running(Option<u64>, u64),
    /// Stale, and a new monitor was started: staleness.
    Started(Option<u64>),
}

/// What the scheduler decides for a job.
#[derive(Debug, Clone, Copy, PartialEq, Eq)]
pub enum JobDecision {
    /// Nothing to start; the staleness.
    Fresh(u64),
    /// A monitor is running: mark the status `running`.
    AlreadyRunning(Option<u64>, u64),
    /// Start a new monitor.
    Launch(Option<u64>),
}

/// The scheduler's plan for one invocation: first remove the PID marker
/// of a monitor that has exited, then act on the decision.
#[derive(Debug, Clone, Copy, PartialEq, Eq)]
pub struct JobPlan {
    pub remove_pid_marker: bool,
    pub decision: JobDecision,
}

/// The last run succeeded less than `max_age` ago. A recent failure is
/// not fresh, so that failures are retried at once.
pub open spec fn is_fresh(s: JobSnapshot, max_age: u64) -> bool {
    &&& s.staleness is Some
    &&& s.staleness->0 < max_age
    &&& s.status == JobExecutionStatus::Success
}

/// The plan for snapshot `s` with freshness threshold `max_age`.
pub open spec fn job_plan(s: JobSnapshot, max_age: u64) -> JobPlan {
    JobPlan {
        remove_pid_marker: s.running_for is None && s.pid_marker,
        decision: if is_fresh(s, max_age) {
            JobDecision::Fresh(s.staleness->0)
        } else {
            match s.running_for {
                Some(d) => JobDecision::AlreadyRunning(s.staleness, d),
                None => JobDecision::Launch(s.staleness),
            }
        },
    }
}

/// The markers after a plan is carried out, a launch succeeding: the PID
/// marker goes where the monitor exited and comes with a new monitor, and
/// the status reads `running` wherever a monitor runs.
pub open spec fn apply_plan(s: JobSnapshot, p: JobPlan) -> JobSnapshot {
    match p.decision {
        JobDecision::Fresh(_) => JobSnapshot { pid_marker: s.pid_marker && !p.remove_pid_marker, ..s },
        JobDecision::AlreadyRunning(_, _) => JobSnapshot {
            status: JobExecutionStatus::Running,
            ..s
        },
        JobDecision::Launch(_) => JobSnapshot {
            pid_marker: true,
            status: JobExecutionStatus::Running,
            running_for: Some(0),
            ..s
        },
    }
}

/// Decides what to do for a job, from what one invocation sees of it and
/// the freshness threshold `max_age`.
pub fn plan_job(s: &JobSnapshot, max_age: u64) -> (r: JobPlan)
    ensures
        r == job_plan(*s, max_age),
{
    let fresh = match s.staleness {
        Some(st) => st < max_age && s.status == JobExecutionStatus::Success,
        None => false,
    };
    let decision = if fresh {
        JobDecision::Fresh(s.staleness.unwrap())
    } else {
        match s.running_for {
            Some(d) => JobDecision::AlreadyRunning(s.staleness, d),
            None => JobDecision::Launch(s.staleness),
        }
    };
    JobPlan { remove_pid_marker: s.running_for.is_none() && s.pid_marker, decision }
}

/// A job that was never seen has no markers: its first invocation starts it.
pub proof fn lemma_first_run_launches(s: JobSnapshot, max_age: u64)
    requires
        s.staleness is None,
        s.running_for is None,
        !s.pid_marker,
        s.status == JobExecutionStatus::Unknown,
    ensures
        job_plan(s, max_age) == (JobPlan { remove_pid_marker: false, decision: JobDecision::Launch(None) }),
{
}

/// A success less than `max_age` ago is fresh: nothing is started.
pub proof fn lemma_recent_success_is_fresh(s: JobSnapshot, max_age: u64)
    requires
        s.staleness matches Some(st) && st < max_age,
        s.status == JobExecutionStatus::Success,
    ensures
        job_plan(s, max_age).decision == JobDecision::Fresh(s.staleness->0),
{
}

/// A failure less than `max_age` ago is not fresh: where no monitor runs,
/// a new one is started.
pub proof fn lemma_recent_failure_relaunches(s: JobSnapshot, max_age: u64)
    requires
        s.staleness matches Some(st) && st < max_age,
        s.status == JobExecutionStatus::Failed,
        s.running_for is None,
    ensures
        job_plan(s, max_age).decision == JobDecision::Launch(s.staleness),
{
}

/// While a monitor is alive no second one is started; and once a stale
/// job's running monitor has been seen, the next invocation that sees it
/// alive, at whatever staleness, reports it running again.
pub proof fn lemma_running_not_duplicated(
    s: JobSnapshot,
    max_age: u64,
    later_staleness: Option<u64>,
    later_running_for: u64,
)
    requires
        s.running_for is Some,
        !is_fresh(s, max_age),
    ensures
        job_plan(s, max_age).decision == JobDecision::AlreadyRunning(s.staleness, s.running_for->0),
        ({
            let next = JobSnapshot {
                staleness: later_staleness,
                running_for: Some(later_running_for),
                ..apply_plan(s, job_plan(s, max_age))
            };
            job_plan(next, max_age).decision == JobDecision::AlreadyRunning(
                later_staleness,
                later_running_for,
            ) && !job_plan(next, max_age).remove_pid_marker
        }),
{
}

/// What the scheduler reports where it decided not to start anything.
pub fn settled_status(d: JobDecision) -> (r: Option<BackgroundJobStatus>)
    ensures
        r == match d {
            JobDecision::Fresh(st) => Some(BackgroundJobStatus::Fresh(st)),
            JobDecision::AlreadyRunning(st, dur) => Some(BackgroundJobStatus::Running(st, dur)),
            JobDecision::Launch(_) => None,
        },
{
    match d {
        JobDecision::Fresh(st) => Some(BackgroundJobStatus::Fresh(st)),
        JobDecision::AlreadyRunning(st, dur) => Some(BackgroundJobStatus::Running(st, dur)),
        JobDecision::Launch(_) => None,
    }
}

/// What to record after trying to start a monitor, and what to report.
#[derive(Debug, PartialEq, Eq)]
pub struct LaunchRecord {
    /// The process id to write to the PID marker, if any.
    pub pid: Option<u32>,
    /// The status to write to the status marker.
    pub status: JobExecutionStatus,
    pub outcome: Result<BackgroundJobStatus, Error>,
}

/// The record of an attempt to start a monitor for a job of staleness
/// `staleness`: `spawned` is the new process's id, or why it could not be
/// started. A failure to start is reported as an error and recorded as
/// `failed`; it differs from a command that ran and failed, which only the
/// monitor records.
pub fn launch_record(staleness: Option<u64>, spawned: Result<u32, Error>) -> (r: LaunchRecord)
    ensures
        match spawned {
            Ok(pid) => r == (LaunchRecord {
                pid: Some(pid),
                status: JobExecutionStatus::Running,
                outcome: Ok(BackgroundJobStatus::Started(staleness)),
            }),
            Err(e) => r == (LaunchRecord {
                pid: None,
                status: JobExecutionStatus::Failed,
                outcome: Err(e),
            }),
        },
{
    match spawned {
        Ok(pid) => LaunchRecord {
            pid: Some(pid),
            status: JobExecutionStatus::Running,
            outcome: Ok(BackgroundJobStatus::Started(staleness)),
        },
        Err(e) => LaunchRecord { pid: None, status: JobExecutionStatus::Failed, outcome: Err(e) },
    }
}

/// The marker of a command that must fail to start, without a shell being
/// run: a way to bring about a start failure on purpose.
pub const SENTINEL: &'static str = "non_existent_command";

/// The command `program` with `args` is refused at start: the sentinel
/// occurs in its program or in one of its arguments.
pub open spec fn is_sentinel_command(program: Seq<char>, args: Seq<Seq<char>>) -> bool {
    occurs_in(SENTINEL@, program) || exists|i: int| 0 <= i < args.len() && occurs_in(SENTINEL@, #[trigger] args[i])
}

/// The shell text that a monitor runs in the job directory `dir` for the
/// command line `cmd`: it runs the command with its output in the log,
/// records `success` or `failed` by the exit code, then touches the
/// last-run marker whatever the outcome.
pub open spec fn monitor_text(dir: Seq<char>, cmd: Seq<char>) -> Seq<char> {
    let status = escaped(path_join(dir, STATUS_FILE@));
    cmd + " > "@ + escaped(path_join(dir, LOG_FILE@)) + " 2>&1; if [ $? -eq 0 ]; then echo success > "@
        + status + "; else echo failed > "@ + status + "; fi; touch "@ + escaped(
        path_join(dir, LAST_RUN_FILE@),
    )
}

/// The shell text of the monitor for `program` with `args` in the job
/// directory `dir`; an error, without any text, for the sentinel command.
pub fn monitor_script(dir: &str, program: &str, args: &Vec<String>) -> (r: Result<String, Error>)
    ensures
        is_sentinel_command(program@, strs_view(args@)) <==> r is Err,
        r matches Err(e) ==> error_text(e) == "Workflow Error: Command does not exist"@,
        r matches Ok(t) ==> t@ == monitor_text(
            dir@,
            joined(seq![program@] + args@.map_values(|a: String| a@)),
        ),
{
    let sentinel = chars_of(SENTINEL);
    let mut refused = contains(&chars_of(program), &sentinel);
    let mut i: usize = 0;
    while i < args.len()
        invariant
            sentinel@ == SENTINEL@,
            i <= args@.len(),
            refused <==> (occurs_in(SENTINEL@, program@) || exists|j: int| 0 <= j < i && occurs_in(SENTINEL@, #[trigger] strs_view(args@)[j])),
        decreases args.len() - i,
    {
        assert(strs_view(args@)[i as int] == args@[i as int]@);
        if contains(&chars_of(args[i].as_str()), &sentinel) {
            refused = true;
        }
        i += 1;
    }
    if refused {
        proof {
            reveal_strlit("Workflow Error: ");
            reveal_strlit("Command does not exist");
            reveal_strlit("Workflow Error: Command does not exist");
            assert("Workflow Error: "@ + "Command does not exist"@ =~= "Workflow Error: Command does not exist"@);
        }
        return Err(Error::Workflow("Command does not exist".to_owned()));
    }
    let mut t = escape_command(program, args);
    let status = join(dir, STATUS_FILE);
    push_str(&mut t, " > ");
    push_escaped(&mut t, join(dir, LOG_FILE).as_str());
    push_str(&mut t, " 2>&1; if [ $? -eq 0 ]; then echo success > ");
    push_escaped(&mut t, status.as_str());
    push_str(&mut t, "; else echo failed > ");
    push_escaped(&mut t, status.as_str());
    push_str(&mut t, "; fi; touch ");
    push_escaped(&mut t, join(dir, LAST_RUN_FILE).as_str());
    Ok(t)
}

/// How `humantime` writes a duration of `millis` milliseconds.
pub uninterp spec fn duration_text(millis: u64) -> Seq<char>;

/// Relies on `humantime::format_duration` and its `Display`: the text of
/// a duration, which depends on the duration alone; zero reads `0s`.
#[verifier::external_body]
fn format_millis(millis: u64) -> (r: String)
    ensures
        r@ == duration_text(millis),
        millis == 0 ==> r@ == "0s"@,
{
    humantime::format_duration(std::time::Duration::from_millis(millis)).to_string()
}

/// The title of the item that reports on the job called `name`.
pub open spec fn job_title(name: Seq<char>) -> Seq<char> {
    "Background Job '"@ + name + "'"@
}

/// The subtitle for a job that runs, where it last ran `staleness` ago (or
/// never) with outcome `last`, and has run for `running`.
pub open spec fn running_subtitle(
    staleness: Option<Seq<char>>,
    running: Seq<char>,
    last: JobExecutionStatus,
) -> Seq<char> {
    match staleness {
        None => "First run, running for "@ + running,
        Some(st) => if last == JobExecutionStatus::Failed {
            "Last failed "@ + st + " ago, running for "@ + running
        } else {
            "Last ran "@ + st + " ago, running for "@ + running
        },
    }
}

/// The icon for a running job: a clock, or a caution badge where it is
/// retried after a failure.
pub open spec fn running_icon(first_run: bool, last: JobExecutionStatus) -> Seq<char> {
    if !first_run && last == JobExecutionStatus::Failed {
        ICON_ALERT_CAUTION_BADGE@
    } else {
        ICON_CLOCK@
    }
}

fn title_for(name: &str) -> (r: String)
    ensures
        r@ == job_title(name@),
{
    let mut t = "Background Job '".to_owned();
    push_str(&mut t, name);
    push_str(&mut t, "'");
    t
}

/// The item for the job called `name` while it runs: `staleness` and
/// `running` are the written durations, `last` the outcome before this run.
/// It cannot be chosen.
pub fn running_item(name: &str, staleness: Option<&str>, running: &str, last: JobExecutionStatus) -> (r: Item)
    ensures
        r.title@ == job_title(name@),
        opt_view(r.subtitle) == Some(running_subtitle(
            match staleness {
                Some(s) => Some(s@),
                None => None,
            },
            running@,
            last,
        )),
        r.icon matches Some(i) && i.type_ is None && i.path@ == running_icon(staleness is None, last),
        r.valid == Some(false),
        (Item { subtitle: None, icon: None, valid: None, ..r }).is_bare(),
{
    let mut sub = String::new();
    match staleness {
        None => {
            push_str(&mut sub, "First run, running for ");
        },
        Some(st) => {
            if last == JobExecutionStatus::Failed {
                push_str(&mut sub, "Last failed ");
            } else {
                push_str(&mut sub, "Last ran ");
            }
            push_str(&mut sub, st);
            push_str(&mut sub, " ago, running for ");
        },
    }
    push_str(&mut sub, running);
    let icon = if staleness.is_some() && last == JobExecutionStatus::Failed {
        ICON_ALERT_CAUTION_BADGE
    } else {
        ICON_CLOCK
    };
    let title = title_for(name);
    Item::new(title.as_str()).subtitle(sub.as_str()).icon(Icon::from_image(icon)).valid(false)
}

/// The item for the job called `name` where its monitor could not be
/// started for `error`.
pub fn error_status_item(name: &str, error: &Error) -> (r: Item)
    ensures
        r.title@ == job_title(name@),
        opt_view(r.subtitle) == Some("Error starting job: "@ + error_text(*error)),
        (Item { subtitle: None, ..r }).is_bare(),
{
    let mut sub = "Error starting job: ".to_owned();
    push_str(&mut sub, error.to_string().as_str());
    let title = title_for(name);
    Item::new(title.as_str()).subtitle(sub.as_str())
}

/// The item that reports what the scheduler returned for the job called
/// `name`, `last` being the outcome recorded before this invocation: none
/// for a fresh job, the running job's durations, or the start failure.
pub fn status_item(
    name: &str,
    outcome: &Result<BackgroundJobStatus, Error>,
    last: JobExecutionStatus,
) -> (r: Option<Item>)
    ensures
        match *outcome {
            Ok(BackgroundJobStatus::Fresh(_)) => r is None,
            Ok(BackgroundJobStatus::Running(st, d)) => r matches Some(item) && item.title@
                == job_title(name@) && opt_view(item.subtitle) == Some(running_subtitle(
                match st {
                    Some(x) => Some(duration_text(x)),
                    None => None,
                },
                duration_text(d),
                last,
            )) && item.valid == Some(false) && (item.icon matches Some(i) && i.path@ == running_icon(
                st is None,
                last,
            )),
            Ok(BackgroundJobStatus::Started(st)) => r matches Some(item) && item.title@
                == job_title(name@) && opt_view(item.subtitle) == Some(running_subtitle(
                match st {
                    Some(x) => Some(duration_text(x)),
                    None => None,
                },
                "0s"@,
                last,
            )) && item.valid == Some(false) && (item.icon matches Some(i) && i.path@ == running_icon(
                st is None,
                last,
            )),
            Err(e) => r matches Some(item) && item.title@ == job_title(name@) && opt_view(
                item.subtitle,
            ) == Some("Error starting job: "@ + error_text(e)),
        },
{
    match outcome {
        Ok(BackgroundJobStatus::Fresh(_)) => None,
        Ok(BackgroundJobStatus::Running(st, d)) => {
            let running = format_millis(*d);
            match st {
                Some(x) => {
                    let stale = format_millis(*x);
                    Some(running_item(name, Some(stale.as_str()), running.as_str(), last))
                },
                None => Some(running_item(name, None, running.as_str(), last)),
            }
        },
        Ok(BackgroundJobStatus::Started(st)) => {
            let running = format_millis(0);
            match st {
                Some(x) => {
                    let stale = format_millis(*x);
                    Some(running_item(name, Some(stale.as_str()), running.as_str(), last))
                },
                None => Some(running_item(name, None, running.as_str(), last)),
            }
        },
        Err(e) => Some(error_status_item(name, e)),
    }
}

/// A non-empty run of decimal digits.
pub open spec fn is_digits(s: Seq<char>) -> bool {
    s.len() > 0 && forall|i: int| 0 <= i < s.len() ==> '0' <= #[trigger] s[i] && s[i] <= '9'
}

/// The number that the decimal digits `s` write.
pub open spec fn digits_value(s: Seq<char>) -> nat
    decreases s.len(),
{
    if s.len() == 0 {
        0
    } else {
        digits_value(s.drop_last()) * 10 + ((s.last() as nat) - ('0' as nat)) as nat
    }
}

/// The process id that the trimmed text `t` of a PID marker records.
pub open spec fn pid_of(t: Seq<char>) -> Option<u32> {
    if is_digits(t) && digits_value(t) <= u32::MAX {
        Some(digits_value(t) as u32)
    } else {
        None
    }
}

/// The process id that trimmed marker text records: decimal digits only,
/// of a value that fits in 32 bits.
pub fn pid_from_trimmed(t: &str) -> (r: Option<u32>)
    ensures
        r == pid_of(t@),
{
    let cs = chars_of(t);
    if cs.len() == 0 {
        return None;
    }
    let mut acc: u64 = 0;
    let mut too_big = false;
    let mut i: usize = 0;
    while i < cs.len()
        invariant
            cs@ == t@,
            i <= cs@.len(),
            forall|j: int| 0 <= j < i ==> '0' <= #[trigger] cs@[j] && cs@[j] <= '9',
            !too_big ==> acc == digits_value(cs@.take(i as int)) && acc <= u32::MAX,
            too_big ==> digits_value(cs@.take(i as int)) > u32::MAX,
        decreases cs.len() - i,
    {
        let c = cs[i];
        if c < '0' || c > '9' {
            assert(!is_digits(t@));
            return None;
        }
        proof {
            assert(cs@.take(i + 1).drop_last() =~= cs@.take(i as int));
            assert(cs@.take(i + 1).last() == c);
        }
        if !too_big {
            let d = (c as u32 - '0' as u32) as u64;
            acc = acc * 10 + d;
            if acc > 0xffff_ffffu64 {
                too_big = true;
            }
        } else {
            assert(digits_value(cs@.take(i + 1)) >= digits_value(cs@.take(i as int)));
        }
        i += 1;
    }
    assert(cs@.take(cs.len() as int) =~= cs@);
    if too_big {
        None
    } else {
        Some(acc as u32)
    }
}

/// The process id that a PID marker's text records, once trimmed.
pub fn parse_pid(text: &str) -> (r: Option<u32>)
    ensures
        r == pid_of(trimmed(text@)),
{
    pid_from_trimmed(trim(text))
}

} // verus!
