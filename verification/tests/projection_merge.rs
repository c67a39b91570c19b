use gmon::model::{BranchPipelineUpdate, Pipeline, Project};
use gmon::projection::{MultiProjection, SingleProjection};
use gmon::status::PipelineStatus;

fn project(path: &str) -> Project {
    Project { id: path.to_string(), full_path: path.to_string(), pipelines: Vec::new() }
}

fn update(project: &str, branch: Option<&str>, states: Vec<PipelineStatus>) -> BranchPipelineUpdate {
    BranchPipelineUpdate {
        project: project.to_string(),
        branch: branch.map(|b| b.to_string()),
        states,
    }
}

#[test]
fn single_drain_takes_last_published() {
    let mut proj = SingleProjection::new();
    proj.drain(vec![project("one"), project("two"), project("three")]);
    assert_eq!(proj.project.as_ref().map(|p| p.full_path.as_str()), Some("three"));
}

#[test]
fn single_drain_of_nothing_keeps_state() {
    let mut proj = SingleProjection::new();
    proj.apply(project("kept"));
    proj.drain(Vec::new());
    assert_eq!(proj.project.as_ref().map(|p| p.full_path.as_str()), Some("kept"));
}

#[test]
fn single_pipeline_count_preserved() {
    let mut proj = SingleProjection::new();
    let mut p = project("team/app");
    p.pipelines.push(Pipeline {
        id: "1".to_string(),
        name: "n".to_string(),
        git_ref: "main".to_string(),
        status: PipelineStatus::Success,
        stages: Vec::new(),
    });
    proj.apply(p);
    assert_eq!(proj.project.as_ref().unwrap().pipelines.len(), 1);
}

#[test]
fn upsert_replaces_same_key_outright() {
    let mut proj = MultiProjection::new();
    proj.upsert(update("p", Some("main"), vec![PipelineStatus::Failed, PipelineStatus::Failed]));
    proj.upsert(update("p", Some("main"), vec![PipelineStatus::Success]));
    assert_eq!(proj.entries.len(), 1);
    assert_eq!(proj.entries[0].states, vec![PipelineStatus::Success]);
}

#[test]
fn upsert_keeps_keys_sorted() {
    let mut proj = MultiProjection::new();
    proj.upsert(update("proj2", Some("b"), vec![PipelineStatus::Failed]));
    proj.upsert(update("proj1", Some("a"), vec![PipelineStatus::Success]));
    assert_eq!(proj.entries.len(), 2);
    assert_eq!(proj.entries[0].project, "proj1");
    assert_eq!(proj.entries[1].project, "proj2");
}

#[test]
fn upsert_orders_branches_within_project() {
    let mut proj = MultiProjection::new();
    proj.upsert(update("p", Some("main"), vec![PipelineStatus::Success]));
    proj.upsert(update("p", None, vec![PipelineStatus::Running]));
    proj.upsert(update("p", Some("dev"), vec![PipelineStatus::Failed]));
    assert_eq!(proj.entries.len(), 3);
    assert_eq!(proj.entries[0].branch, None);
    assert_eq!(proj.entries[1].branch.as_deref(), Some("dev"));
    assert_eq!(proj.entries[2].branch.as_deref(), Some("main"));
}

#[test]
fn drain_is_last_write_wins_per_key() {
    let mut proj = MultiProjection::new();
    proj.drain(vec![
        update("proj1", Some("a"), vec![PipelineStatus::Failed]),
        update("proj2", Some("b"), vec![PipelineStatus::Running]),
        update("proj1", Some("a"), vec![PipelineStatus::Success]),
    ]);
    assert_eq!(proj.entries.len(), 2);
    assert_eq!(proj.entries[0].project, "proj1");
    assert_eq!(proj.entries[0].states, vec![PipelineStatus::Success]);
    assert_eq!(proj.entries[1].project, "proj2");
    assert_eq!(proj.entries[1].states, vec![PipelineStatus::Running]);
}

#[test]
fn concurrent_pollers_merge_into_sorted_keys() {
    let mut proj = MultiProjection::new();
    // Publications of two pollers, in the order the loop happened to
    // receive them.
    proj.drain(vec![
        update("proj2", Some("b"), vec![PipelineStatus::Running]),
        update("proj1", Some("a"), vec![PipelineStatus::Success]),
    ]);
    let frames = gmon::render::render_history(&proj);
    assert_eq!(frames.len(), 2);
    assert_eq!(frames[0].title, "proj1");
    assert_eq!(frames[0].branch_title, "a");
    assert_eq!(frames[1].title, "proj2");
    assert_eq!(frames[1].branch_title, "b");
}

#[test]
fn shorter_update_replaces_longer_entry() {
    let mut proj = MultiProjection::new();
    proj.upsert(update("p", Some("main"), vec![
        PipelineStatus::Success,
        PipelineStatus::Failed,
        PipelineStatus::Success,
    ]));
    proj.upsert(update("p", Some("main"), vec![PipelineStatus::Running]));
    assert_eq!(proj.entries[0].states, vec![PipelineStatus::Running]);
}
