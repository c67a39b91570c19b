use gmon::status::{JobStatus, PipelineStatus};
use gmon::wire::{
    branch_update, normalize_job, normalize_pipeline, normalize_project, normalize_stage, WireJob,
    WirePipeline, WireProject, WireStage,
};

#[test]
fn job_defaults() {
    let j = normalize_job(&WireJob { name: None, status: None });
    assert_eq!(j.name, "no_name");
    assert_eq!(j.status, JobStatus::Created);
}

#[test]
fn job_present_fields_kept() {
    let j = normalize_job(&WireJob {
        name: Some("unit".to_string()),
        status: Some(JobStatus::Failed),
    });
    assert_eq!(j.name, "unit");
    assert_eq!(j.status, JobStatus::Failed);
}

#[test]
fn stage_defaults() {
    let s = normalize_stage(&WireStage { name: None, jobs: None });
    assert_eq!(s.name, "no name");
    assert!(s.jobs.is_empty());
}

#[test]
fn stage_drops_absent_jobs_and_keeps_order() {
    let s = normalize_stage(&WireStage {
        name: Some("test".to_string()),
        jobs: Some(vec![
            Some(WireJob { name: Some("a".to_string()), status: Some(JobStatus::Success) }),
            None,
            Some(WireJob { name: Some("b".to_string()), status: Some(JobStatus::Skipped) }),
        ]),
    });
    assert_eq!(s.jobs.len(), 2);
    assert_eq!(s.jobs[0].name, "a");
    assert_eq!(s.jobs[1].name, "b");
}

#[test]
fn pipeline_defaults() {
    let p = normalize_pipeline(&WirePipeline {
        id: "17".to_string(),
        name: None,
        git_ref: None,
        status: PipelineStatus::Running,
        stages: None,
    });
    assert_eq!(p.id, "17");
    assert_eq!(p.name, "no name");
    assert_eq!(p.git_ref, "no name");
    assert_eq!(p.status, PipelineStatus::Running);
    assert!(p.stages.is_empty());
}

#[test]
fn project_structure_normalized() {
    let w = WireProject {
        id: "1".to_string(),
        full_path: "team/app".to_string(),
        pipelines: Some(vec![Some(WirePipeline {
            id: "2".to_string(),
            name: Some("pipeline".to_string()),
            git_ref: Some("main".to_string()),
            status: PipelineStatus::Success,
            stages: Some(vec![
                Some(WireStage { name: Some("build".to_string()), jobs: None }),
                None,
            ]),
        })]),
    };
    let p = normalize_project(&w);
    assert_eq!(p.full_path, "team/app");
    assert_eq!(p.pipelines.len(), 1);
    assert_eq!(p.pipelines[0].git_ref, "main");
    assert_eq!(p.pipelines[0].stages.len(), 1);
    assert_eq!(p.pipelines[0].stages[0].name, "build");
}

#[test]
fn branch_update_keeps_newest_first_order() {
    let u = branch_update(
        "team/app".to_string(),
        Some("main".to_string()),
        Some(vec![
            Some(PipelineStatus::Success),
            None,
            Some(PipelineStatus::Failed),
            Some(PipelineStatus::Running),
        ]),
    );
    assert_eq!(u.project, "team/app");
    assert_eq!(u.branch.as_deref(), Some("main"));
    assert_eq!(
        u.states,
        vec![PipelineStatus::Success, PipelineStatus::Failed, PipelineStatus::Running]
    );
}

#[test]
fn branch_update_absent_list_is_empty() {
    let u = branch_update("p".to_string(), None, None);
    assert!(u.states.is_empty());
    assert_eq!(u.branch, None);
}
