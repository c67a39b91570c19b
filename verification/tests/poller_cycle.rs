use gmon::config::Config;
use gmon::poller::{poller_step, PollOutcome, PollerStep};
use gmon::query::{JobQueryParams, PipelinesQueryArgs};
use gmon::status::PipelineStatus;
use gmon::text::{str_eq, str_lt};

#[test]
fn fetched_record_publishes_while_receiver_lives() {
    let outcome: PollOutcome<u32> = PollOutcome::Fetched(7);
    assert_eq!(poller_step(&outcome, true), PollerStep::Publish);
}

#[test]
fn poller_stops_when_receiver_dropped() {
    let outcome: PollOutcome<u32> = PollOutcome::Fetched(7);
    assert_eq!(poller_step(&outcome, false), PollerStep::Stop);
}

#[test]
fn transport_error_retries_next_cadence() {
    let outcome: PollOutcome<u32> = PollOutcome::TransportError;
    assert_eq!(poller_step(&outcome, true), PollerStep::Retry);
    assert_eq!(poller_step(&outcome, false), PollerStep::Retry);
}

#[test]
fn empty_project_is_not_published() {
    let outcome: PollOutcome<u32> = PollOutcome::NoProject;
    assert_eq!(poller_step(&outcome, true), PollerStep::Retry);
}

#[test]
fn job_query_builder() {
    let q = JobQueryParams::new("team/app".to_string())
        .with_reference("main".to_string())
        .with_count(1);
    assert_eq!(q.project, "team/app");
    assert_eq!(q.git_ref.as_deref(), Some("main"));
    assert_eq!(q.pipeline_count, Some(1));
    assert_eq!(q.pipeline_status, None);
}

#[test]
fn pipelines_query_builder() {
    let q = PipelinesQueryArgs::new("team/app".to_string())
        .with_count(30)
        .with_status(PipelineStatus::Failed);
    assert_eq!(q.project, "team/app");
    assert_eq!(q.git_ref, None);
    assert_eq!(q.pipeline_count, Some(30));
    assert_eq!(q.pipeline_status, Some(PipelineStatus::Failed));
}

#[test]
fn config_holds_its_values() {
    let c = Config::new("https://example/".to_string(), "t".to_string());
    assert_eq!(c.host, "https://example/");
    assert_eq!(c.token, "t");
}

#[test]
fn string_comparisons() {
    assert!(str_eq("abc", "abc"));
    assert!(!str_eq("abc", "abd"));
    assert!(str_lt("proj1", "proj2"));
    assert!(str_lt("a", "ab"));
    assert!(!str_lt("b", "a"));
    assert!(!str_lt("same", "same"));
}
