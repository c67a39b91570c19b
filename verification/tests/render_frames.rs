use gmon::model::{BranchPipelineUpdate, Job, Pipeline, Project, Stage};
use gmon::render::{
    pipeline_span, render_multi, render_single, stage_row_height, StyleKind, MULTI_VIEW_HEIGHT,
    SINGLE_VIEW_HEIGHT,
};
use gmon::status::{JobStatus, PipelineStatus};

fn scenario_project() -> Project {
    Project {
        id: "1".to_string(),
        full_path: "team/app".to_string(),
        pipelines: vec![Pipeline {
            id: "2".to_string(),
            name: "nightly".to_string(),
            git_ref: "main".to_string(),
            status: PipelineStatus::Running,
            stages: vec![
                Stage {
                    name: "build".to_string(),
                    jobs: vec![Job { name: "compile".to_string(), status: JobStatus::Success }],
                },
                Stage {
                    name: "test".to_string(),
                    jobs: vec![
                        Job { name: "unit".to_string(), status: JobStatus::Failed },
                        Job { name: "e2e".to_string(), status: JobStatus::Skipped },
                    ],
                },
            ],
        }],
    }
}

#[test]
fn single_view_frame_matches_projection() {
    let f = render_single(&scenario_project());
    assert_eq!(f.title, "team/app");
    assert_eq!(f.ref_title, "main");
    assert_eq!(f.name_title, "nightly");
    assert_eq!(f.rows.len(), 2);
    assert_eq!(f.rows[0].name, "build");
    assert_eq!(f.rows[1].name, "test");
}

#[test]
fn single_view_job_glyphs_and_styles() {
    let f = render_single(&scenario_project());
    let build = &f.rows[0].spans;
    assert_eq!(build.len(), 1);
    assert_eq!(build[0].text, "⬤  ");
    assert_eq!(build[0].style, StyleKind::Green);
    let test = &f.rows[1].spans;
    assert_eq!(test.len(), 2);
    assert_eq!(test[0].text, "⬤  ");
    assert_eq!(test[0].style, StyleKind::Red);
    assert_eq!(test[1].text, "  »  ");
    assert_eq!(test[1].style, StyleKind::Text);
}

#[test]
fn single_view_measures() {
    assert_eq!(SINGLE_VIEW_HEIGHT, 15);
    assert_eq!(MULTI_VIEW_HEIGHT, 5);
    let f = render_single(&scenario_project());
    assert_eq!(f.rows[0].height, 3);
    assert_eq!(f.rows[1].height, 4);
}

#[test]
fn stage_row_height_floor_and_growth() {
    assert_eq!(stage_row_height(0), 3);
    assert_eq!(stage_row_height(1), 3);
    assert_eq!(stage_row_height(2), 4);
    assert_eq!(stage_row_height(5), 7);
    assert_eq!(stage_row_height(70000), 65535);
}

#[test]
fn multi_view_frame_matches_update() {
    let u = BranchPipelineUpdate {
        project: "team/app".to_string(),
        branch: Some("main".to_string()),
        states: vec![
            PipelineStatus::Success,
            PipelineStatus::Failed,
            PipelineStatus::Success,
            PipelineStatus::Running,
        ],
    };
    let f = render_multi(&u);
    assert_eq!(f.title, "team/app");
    assert_eq!(f.branch_title, "main");
    let styles: Vec<StyleKind> = f.spans.iter().map(|s| s.style).collect();
    assert_eq!(
        styles,
        vec![StyleKind::Green, StyleKind::Red, StyleKind::Green, StyleKind::Blue]
    );
    for s in &f.spans {
        assert_eq!(s.text, " ███ ");
    }
}

#[test]
fn multi_view_without_branch_has_empty_title() {
    let u = BranchPipelineUpdate { project: "p".to_string(), branch: None, states: Vec::new() };
    let f = render_multi(&u);
    assert_eq!(f.branch_title, "");
    assert!(f.spans.is_empty());
}

#[test]
fn unknown_status_renders_dim_filled_block() {
    let sp = pipeline_span(&PipelineStatus::Other("NEEDS_LOVE".to_string()));
    assert_eq!(sp.text, " ███ ");
    assert_eq!(sp.style, StyleKind::Dim);
}

#[test]
fn pictographic_statuses() {
    assert_eq!(pipeline_span(&PipelineStatus::Canceled).text, "  ☠  ");
    assert_eq!(pipeline_span(&PipelineStatus::Manual).text, "  👋  ");
    assert_eq!(pipeline_span(&PipelineStatus::Scheduled).text, "  🕔 ");
    assert_eq!(pipeline_span(&PipelineStatus::Skipped).text, "  »  ");
    let waiting = pipeline_span(&PipelineStatus::WaitingForResource);
    assert_eq!(waiting.text, " ███ ");
    assert_eq!(waiting.style, StyleKind::Dim);
}
