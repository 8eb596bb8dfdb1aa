use std::collections::hash_map::DefaultHasher;
use std::hash::{Hash, Hasher};

use alfrusco::background_job::{
    hex_string, job_dir, job_id, launch_record, parse_pid, monitor_script, plan_job, running_duration_at,
    running_item, settled_status, staleness_at, status_item, BackgroundJobStatus, JobDecision,
    JobExecutionStatus, JobPlan, JobSnapshot,
};
use alfrusco::icon::{ICON_ALERT_CAUTION_BADGE, ICON_CLOCK};
use alfrusco::Error;

const HOUR: u64 = 3_600_000;
const MINUTE: u64 = 60_000;

fn create_job_id(name: &str) -> String {
    let mut hasher = DefaultHasher::new();
    name.hash(&mut hasher);
    format!("{:x}", hasher.finish())
}

fn never_seen() -> JobSnapshot {
    JobSnapshot {
        staleness: None,
        running_for: None,
        pid_marker: false,
        status: JobExecutionStatus::Unknown,
    }
}

#[test]
fn first_run_of_new_job_launches() {
    let plan = plan_job(&never_seen(), HOUR);
    assert_eq!(
        plan,
        JobPlan { remove_pid_marker: false, decision: JobDecision::Launch(None) }
    );
    assert_eq!(plan_job(&never_seen(), 0).decision, JobDecision::Launch(None));
}

#[test]
fn build_index_first_run_records_monitor() {
    let plan = plan_job(&never_seen(), HOUR);
    assert_eq!(plan.decision, JobDecision::Launch(None));
    assert_eq!(settled_status(plan.decision), None);
    let record = launch_record(None, Ok(4242));
    assert_eq!(record.pid, Some(4242));
    assert_eq!(record.status, JobExecutionStatus::Running);
    assert_eq!(record.status.as_str(), "running");
    assert_eq!(record.outcome, Ok(BackgroundJobStatus::Started(None)));
    let item = status_item("build-index", &record.outcome, JobExecutionStatus::Unknown).unwrap();
    assert_eq!(item.title, "Background Job 'build-index'");
    assert_eq!(item.subtitle, Some("First run, running for 0s".to_string()));
    assert_eq!(item.valid, Some(false));
    assert_eq!(item.icon.unwrap().path, ICON_CLOCK);
}

#[test]
fn build_index_five_minutes_after_success_is_fresh() {
    let snapshot = JobSnapshot {
        staleness: Some(5 * MINUTE),
        running_for: None,
        pid_marker: true,
        status: JobExecutionStatus::Success,
    };
    let plan = plan_job(&snapshot, HOUR);
    assert!(plan.remove_pid_marker);
    assert_eq!(plan.decision, JobDecision::Fresh(5 * MINUTE));
    let status = settled_status(plan.decision).unwrap();
    assert_eq!(status, BackgroundJobStatus::Fresh(5 * MINUTE));
    assert!(status_item("build-index", &Ok(status), JobExecutionStatus::Success).is_none());
}

#[test]
fn build_index_two_hours_later_launches() {
    let snapshot = JobSnapshot {
        staleness: Some(2 * HOUR),
        running_for: None,
        pid_marker: false,
        status: JobExecutionStatus::Success,
    };
    assert_eq!(plan_job(&snapshot, HOUR).decision, JobDecision::Launch(Some(2 * HOUR)));
}

#[test]
fn recent_failure_is_retried() {
    let snapshot = JobSnapshot {
        staleness: Some(5 * MINUTE),
        running_for: None,
        pid_marker: false,
        status: JobExecutionStatus::Failed,
    };
    assert_eq!(plan_job(&snapshot, HOUR).decision, JobDecision::Launch(Some(5 * MINUTE)));
}

#[test]
fn staleness_equal_to_max_age_is_stale() {
    let snapshot = JobSnapshot {
        staleness: Some(HOUR),
        running_for: None,
        pid_marker: false,
        status: JobExecutionStatus::Success,
    };
    assert_eq!(plan_job(&snapshot, HOUR).decision, JobDecision::Launch(Some(HOUR)));
}

#[test]
fn live_monitor_is_not_started_twice() {
    let first = JobSnapshot {
        staleness: Some(2 * HOUR),
        running_for: Some(1_000),
        pid_marker: true,
        status: JobExecutionStatus::Success,
    };
    let plan = plan_job(&first, HOUR);
    assert!(!plan.remove_pid_marker);
    assert_eq!(plan.decision, JobDecision::AlreadyRunning(Some(2 * HOUR), 1_000));
    let second = JobSnapshot {
        staleness: Some(2 * HOUR + 50),
        running_for: Some(1_050),
        pid_marker: true,
        status: JobExecutionStatus::Running,
    };
    assert_eq!(
        plan_job(&second, HOUR).decision,
        JobDecision::AlreadyRunning(Some(2 * HOUR + 50), 1_050)
    );
}

#[test]
fn test_background_job_command_spawn_error() {
    let args = vec!["non_existent_command_sentinel".to_string()];
    let script = monitor_script("/tmp/jobs/x", "echo", &args);
    assert_eq!(script, Err(Error::Workflow("Command does not exist".to_string())));
    let script = monitor_script("/tmp/jobs/x", "non_existent_command_that_definitely_does_not_exist", &vec![]);
    assert!(script.is_err());
    let record = launch_record(Some(10), Err(Error::Workflow("Command does not exist".to_string())));
    assert_eq!(record.pid, None);
    assert_eq!(record.status, JobExecutionStatus::Failed);
    let item = status_item("error_job", &record.outcome, JobExecutionStatus::Unknown).unwrap();
    assert_eq!(item.title, "Background Job 'error_job'");
    assert_eq!(
        item.subtitle,
        Some("Error starting job: Workflow Error: Command does not exist".to_string())
    );
}

#[test]
fn test_shell_escaping_in_background_jobs() {
    let args = vec!["Hello World".to_string(), "CloudSmith".to_string()];
    let script = monitor_script("/tmp/j", "echo", &args).unwrap();
    assert_eq!(
        script,
        "echo 'Hello World' CloudSmith > /tmp/j/job.logs 2>&1; if [ $? -eq 0 ]; then echo success > /tmp/j/job.status; else echo failed > /tmp/j/job.status; fi; touch /tmp/j/job.last_run"
    );
    let script = monitor_script("/tmp/my jobs", "true", &vec![]).unwrap();
    assert!(script.starts_with("true > '/tmp/my jobs/job.logs' 2>&1;"));
}

#[test]
fn running_job_after_failure_is_reported() {
    let outcome = Ok(BackgroundJobStatus::Running(Some(2 * HOUR), 65_000));
    let item = status_item("sync", &outcome, JobExecutionStatus::Failed).unwrap();
    assert_eq!(item.subtitle, Some("Last failed 2h ago, running for 1m 5s".to_string()));
    assert_eq!(item.icon.unwrap().path, ICON_ALERT_CAUTION_BADGE);
    let item = status_item("sync", &outcome, JobExecutionStatus::Running).unwrap();
    assert_eq!(item.subtitle, Some("Last ran 2h ago, running for 1m 5s".to_string()));
    assert_eq!(item.icon.unwrap().path, ICON_CLOCK);
}

#[test]
fn running_item_texts() {
    let item = running_item("j", Some("3m"), "2s", JobExecutionStatus::Success);
    assert_eq!(item.title, "Background Job 'j'");
    assert_eq!(item.subtitle, Some("Last ran 3m ago, running for 2s".to_string()));
    let item = running_item("j", None, "2s", JobExecutionStatus::Failed);
    assert_eq!(item.subtitle, Some("First run, running for 2s".to_string()));
    assert_eq!(item.icon.unwrap().path, ICON_CLOCK);
}

#[test]
fn job_id_is_hash_of_name() {
    assert_eq!(job_id("test_job"), create_job_id("test_job"));
    assert_eq!(job_id(""), create_job_id(""));
    assert_eq!(job_dir("/c/jobs", "build-index"), format!("/c/jobs/{}", create_job_id("build-index")));
    assert_eq!(job_dir("/c/jobs/", "a"), format!("/c/jobs/{}", create_job_id("a")));
}

#[test]
fn hex_digits() {
    assert_eq!(hex_string(0), "0");
    assert_eq!(hex_string(255), "ff");
    assert_eq!(hex_string(4096), "1000");
    assert_eq!(hex_string(u64::MAX), "ffffffffffffffff");
}

#[test]
fn status_marker_text() {
    assert_eq!(JobExecutionStatus::from_marker(Some("success\n")), JobExecutionStatus::Success);
    assert_eq!(JobExecutionStatus::from_marker(Some("  failed ")), JobExecutionStatus::Failed);
    assert_eq!(JobExecutionStatus::from_marker(Some("running")), JobExecutionStatus::Running);
    assert_eq!(JobExecutionStatus::from_marker(Some("garbage")), JobExecutionStatus::Unknown);
    assert_eq!(JobExecutionStatus::from_marker(None), JobExecutionStatus::Unknown);
    assert_eq!(JobExecutionStatus::Failed.as_str(), "failed");
    assert_eq!(JobExecutionStatus::Unknown.as_str(), "unknown");
}

#[test]
fn elapsed_times() {
    assert_eq!(staleness_at(10_000, Some(4_000)), Some(6_000));
    assert_eq!(staleness_at(10_000, Some(12_000)), Some(0));
    assert_eq!(staleness_at(10_000, None), None);
    assert_eq!(running_duration_at(5_000, Some(1_000)), Some(4_000));
    assert_eq!(running_duration_at(5_000, None), None);
}

#[test]
fn pid_marker_text() {
    assert_eq!(parse_pid("4242\n"), Some(4242));
    assert_eq!(parse_pid(" 0 "), Some(0));
    assert_eq!(parse_pid("4294967295"), Some(u32::MAX));
    assert_eq!(parse_pid("4294967296"), None);
    assert_eq!(parse_pid("99999999999999999999999"), None);
    assert_eq!(parse_pid("12a"), None);
    assert_eq!(parse_pid(""), None);
    assert_eq!(parse_pid("-1"), None);
}
