use gmon::status::{JobStatus, PipelineStatus};

#[test]
fn known_pipeline_labels_decode() {
    assert_eq!(PipelineStatus::from_label("SUCCESS"), PipelineStatus::Success);
    assert_eq!(PipelineStatus::from_label("FAILED"), PipelineStatus::Failed);
    assert_eq!(PipelineStatus::from_label("RUNNING"), PipelineStatus::Running);
    assert_eq!(PipelineStatus::from_label("CREATED"), PipelineStatus::Created);
    assert_eq!(PipelineStatus::from_label("PENDING"), PipelineStatus::Pending);
    assert_eq!(PipelineStatus::from_label("PREPARING"), PipelineStatus::Preparing);
    assert_eq!(
        PipelineStatus::from_label("WAITING_FOR_RESOURCE"),
        PipelineStatus::WaitingForResource
    );
    assert_eq!(
        PipelineStatus::from_label("WAITING_FOR_CALLBACK"),
        PipelineStatus::WaitingForCallback
    );
    assert_eq!(PipelineStatus::from_label("SCHEDULED"), PipelineStatus::Scheduled);
    assert_eq!(PipelineStatus::from_label("MANUAL"), PipelineStatus::Manual);
    assert_eq!(PipelineStatus::from_label("SKIPPED"), PipelineStatus::Skipped);
    assert_eq!(PipelineStatus::from_label("CANCELED"), PipelineStatus::Canceled);
    assert_eq!(PipelineStatus::from_label("CANCELING"), PipelineStatus::Canceling);
}

#[test]
fn known_pipeline_labels_round_trip() {
    let labels = [
        "SUCCESS",
        "FAILED",
        "RUNNING",
        "CREATED",
        "PENDING",
        "PREPARING",
        "WAITING_FOR_RESOURCE",
        "WAITING_FOR_CALLBACK",
        "SCHEDULED",
        "MANUAL",
        "SKIPPED",
        "CANCELED",
        "CANCELING",
    ];
    for l in labels {
        assert_eq!(PipelineStatus::from_label(l).label(), l);
    }
}

#[test]
fn unknown_pipeline_label_round_trips_verbatim() {
    let s = PipelineStatus::from_label("NEEDS_LOVE");
    assert_eq!(s, PipelineStatus::Other("NEEDS_LOVE".to_string()));
    assert_eq!(s.label(), "NEEDS_LOVE");
}

#[test]
fn unknown_pipeline_label_keeps_case_and_spacing() {
    let s = PipelineStatus::from_label("success ");
    assert_eq!(s, PipelineStatus::Other("success ".to_string()));
    assert_eq!(s.label(), "success ");
}

#[test]
fn known_job_labels_round_trip() {
    let labels = [
        "CREATED", "PENDING", "RUNNING", "SUCCESS", "FAILED", "CANCELED", "SKIPPED", "MANUAL",
    ];
    for l in labels {
        let s = JobStatus::from_label(l);
        assert!(!matches!(s, JobStatus::Other(_)));
        assert_eq!(s.label(), l);
    }
}

#[test]
fn unknown_job_label_round_trips_verbatim() {
    let s = JobStatus::from_label("ON_FIRE");
    assert_eq!(s, JobStatus::Other("ON_FIRE".to_string()));
    assert_eq!(s.label(), "ON_FIRE");
}
