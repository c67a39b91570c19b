//! The renderers as pure functions: from a projection to a frame model.
//!
//! A frame model is plain data — titles, row heights, and styled glyph
//! spans — that the unverified shell paints one-for-one with its widget
//! library. Everything the views decide is decided here: which glyph and
//! which style each status gets, the row height per stage, and the fixed
//! viewport and column measures. Given an unchanged projection the functions
//! return an equal model, so repeated paints are identical.

use vstd::prelude::*;
use crate::model::{BranchPipelineUpdate, Job, Project, Stage};
use crate::projection::MultiProjection;
use crate::status::{JobStatus, PipelineStatus};

verus! {

/// Rows of the inline viewport of the single-pipeline view.
pub const SINGLE_VIEW_HEIGHT: u16 = 15;

/// Rows of the inline viewport of the history view.
pub const MULTI_VIEW_HEIGHT: u16 = 5;

/// Greatest width of the stage-name column.
pub const STAGE_NAME_WIDTH: u16 = 20;

/// Fixed gap between the stage-name column and the job glyphs.
pub const STAGE_GAP_WIDTH: u16 = 5;

/// How a span is styled; the theme maps each kind to a concrete color or
/// modifier.
#[derive(Clone, Copy, Debug, PartialEq, Eq, Structural)]
pub enum StyleKind {
    /// The theme's text color.
    Text,
    /// The theme's red.
    Red,
    /// The theme's green.
    Green,
    /// The theme's blue.
    Blue,
    /// Plain gray.
    Gray,
    /// Dimmed.
    Dim,
    /// No styling.
    Plain,
}

/// One styled piece of text.
#[derive(Debug, PartialEq, Eq)]
pub struct Span {
    pub text: String,
    pub style: StyleKind,
}

/// The glyph drawn for one job.
pub open spec fn job_glyph(s: JobStatus) -> Seq<char> {
    match s {
        JobStatus::Skipped => "  »  "@,
        _ => "⬤  "@,
    }
}

/// The style of one job's glyph: failed red, success green, created blue,
/// everything else in the text color.
pub open spec fn job_style(s: JobStatus) -> StyleKind {
    match s {
        JobStatus::Failed => StyleKind::Red,
        JobStatus::Success => StyleKind::Green,
        JobStatus::Created => StyleKind::Blue,
        _ => StyleKind::Text,
    }
}

/// The glyph drawn for one pipeline outcome in the history view.
pub open spec fn pipeline_glyph(s: PipelineStatus) -> Seq<char> {
    match s {
        PipelineStatus::Skipped => "  »  "@,
        PipelineStatus::Canceled => "  ☠  "@,
        PipelineStatus::Manual => "  👋  "@,
        PipelineStatus::Scheduled => "  🕔 "@,
        _ => " ███ "@,
    }
}

/// The style of one pipeline outcome: success green, failed red, running
/// blue, created gray; skipped and every waiting, transitional or unknown
/// status is dimmed; the pictographic glyphs are unstyled.
pub open spec fn pipeline_style(s: PipelineStatus) -> StyleKind {
    match s {
        PipelineStatus::Success => StyleKind::Green,
        PipelineStatus::Failed => StyleKind::Red,
        PipelineStatus::Running => StyleKind::Blue,
        PipelineStatus::Created => StyleKind::Gray,
        PipelineStatus::Skipped => StyleKind::Dim,
        PipelineStatus::Canceled => StyleKind::Plain,
        PipelineStatus::Manual => StyleKind::Plain,
        PipelineStatus::Scheduled => StyleKind::Plain,
        _ => StyleKind::Dim,
    }
}

/// The span for one job.
pub fn job_span(s: &JobStatus) -> (sp: Span)
    ensures
        sp.text@ == job_glyph(*s),
        sp.style == job_style(*s),
{
    match s {
        JobStatus::Failed => Span { text: String::from_str("⬤  "), style: StyleKind::Red },
        JobStatus::Success => Span { text: String::from_str("⬤  "), style: StyleKind::Green },
        JobStatus::Created => Span { text: String::from_str("⬤  "), style: StyleKind::Blue },
        JobStatus::Skipped => Span { text: String::from_str("  »  "), style: StyleKind::Text },
        _ => Span { text: String::from_str("⬤  "), style: StyleKind::Text },
    }
}

/// The span for one pipeline outcome.
pub fn pipeline_span(s: &PipelineStatus) -> (sp: Span)
    ensures
        sp.text@ == pipeline_glyph(*s),
        sp.style == pipeline_style(*s),
{
    match s {
        PipelineStatus::Success => Span { text: String::from_str(" ███ "), style: StyleKind::Green },
        PipelineStatus::Failed => Span { text: String::from_str(" ███ "), style: StyleKind::Red },
        PipelineStatus::Running => Span { text: String::from_str(" ███ "), style: StyleKind::Blue },
        PipelineStatus::Created => Span { text: String::from_str(" ███ "), style: StyleKind::Gray },
        PipelineStatus::Skipped => Span { text: String::from_str("  »  "), style: StyleKind::Dim },
        PipelineStatus::Canceled => Span { text: String::from_str("  ☠  "), style: StyleKind::Plain },
        PipelineStatus::Manual => Span { text: String::from_str("  👋  "), style: StyleKind::Plain },
        PipelineStatus::Scheduled => Span { text: String::from_str("  🕔 "), style: StyleKind::Plain },
        _ => Span { text: String::from_str(" ███ "), style: StyleKind::Dim },
    }
}

/// The height of one stage row: two rows of box edge around the jobs, and
/// never below three; clipped to the widget measure's range rather than
/// overflowing.
pub open spec fn spec_stage_row_height(job_count: int) -> int {
    if job_count + 2 <= 3 {
        3
    } else if job_count + 2 > 65535 {
        65535
    } else {
        job_count + 2
    }
}

/// Compute a stage row's height from its job count.
pub fn stage_row_height(job_count: usize) -> (h: u16)
    ensures
        h as int == spec_stage_row_height(job_count as int),
{
    if job_count <= 1 {
        3
    } else if job_count > 65533 {
        65535
    } else {
        (job_count + 2) as u16
    }
}

/// One rendered stage row: the stage name on the left, one glyph per job in
/// server order, and the row's height.
#[derive(Debug, PartialEq, Eq)]
pub struct StageRow {
    pub name: String,
    pub height: u16,
    pub spans: Vec<Span>,
}

/// `row` renders `st`: same name, height by the stage's job count, and one
/// job span per job in order.
pub open spec fn stage_row_ok(st: Stage, row: StageRow) -> bool {
    &&& row.name@ == st.name@
    &&& row.height as int == spec_stage_row_height(st.jobs@.len() as int)
    &&& row.spans@.len() == st.jobs@.len()
    &&& forall|k: int| 0 <= k < st.jobs@.len() ==> {
        &&& (#[trigger] row.spans@[k]).text@ == job_glyph(st.jobs@[k].status)
        &&& row.spans@[k].style == job_style(st.jobs@[k].status)
    }
}

/// The frame of the single-pipeline view: outer title, the inner box's two
/// titles, and one row per stage in server order.
#[derive(Debug, PartialEq, Eq)]
pub struct SingleFrame {
    pub title: String,
    pub ref_title: String,
    pub name_title: String,
    pub rows: Vec<StageRow>,
}

/// `f` renders `p`: titles from the project and its one pipeline, and one
/// row per stage in server order.
pub open spec fn single_frame_ok(p: Project, f: SingleFrame) -> bool {
    &&& f.title@ == p.full_path@
    &&& f.ref_title@ == p.pipelines@[0].git_ref@
    &&& f.name_title@ == p.pipelines@[0].name@
    &&& f.rows@.len() == p.pipelines@[0].stages@.len()
    &&& forall|i: int| 0 <= i < f.rows@.len() ==> stage_row_ok(
        p.pipelines@[0].stages@[i],
        #[trigger] f.rows@[i],
    )
}

/// Render one stage to its row.
fn stage_row(st: &Stage) -> (row: StageRow)
    ensures
        stage_row_ok(*st, row),
{
    let mut spans: Vec<Span> = Vec::new();
    let n = st.jobs.len();
    let mut i: usize = 0;
    while i < n
        invariant
            0 <= i <= n,
            n == st.jobs@.len(),
            spans@.len() == i,
            forall|k: int| 0 <= k < i ==> {
                &&& (#[trigger] spans@[k]).text@ == job_glyph(st.jobs@[k].status)
                &&& spans@[k].style == job_style(st.jobs@[k].status)
            },
        decreases n - i,
    {
        let sp = job_span(&st.jobs[i].status);
        spans.push(sp);
        i = i + 1;
    }
    let height = stage_row_height(n);
    StageRow { name: st.name.clone(), height, spans }
}

/// Render the single-pipeline view. The projection must hold exactly one
/// pipeline; anything else is a programmer error upstream.
pub fn render_single(p: &Project) -> (f: SingleFrame)
    requires
        p.pipelines@.len() == 1,
    ensures
        single_frame_ok(*p, f),
{
    let pipeline = &p.pipelines[0];
    let mut rows: Vec<StageRow> = Vec::new();
    let n = pipeline.stages.len();
    let mut i: usize = 0;
    while i < n
        invariant
            0 <= i <= n,
            n == pipeline.stages@.len(),
            pipeline == &p.pipelines@[0],
            rows@.len() == i,
            forall|k: int| 0 <= k < i ==> stage_row_ok(pipeline.stages@[k], #[trigger] rows@[k]),
        decreases n - i,
    {
        let row = stage_row(&pipeline.stages[i]);
        rows.push(row);
        i = i + 1;
    }
    SingleFrame {
        title: p.full_path.clone(),
        ref_title: pipeline.git_ref.clone(),
        name_title: pipeline.name.clone(),
        rows,
    }
}

/// The frame of one history-view box: outer title, the inner box's branch
/// title, and one glyph span per recent pipeline, newest first.
#[derive(Debug, PartialEq, Eq)]
pub struct MultiFrame {
    pub title: String,
    pub branch_title: String,
    pub spans: Vec<Span>,
}

/// The inner box's title: the branch name, or empty without one.
pub open spec fn branch_title_view(b: Option<String>) -> Seq<char> {
    match b {
        Some(s) => s@,
        None => Seq::empty(),
    }
}

/// `f` renders the given project, branch and states: titles match, and one
/// pipeline span per state in order.
pub open spec fn multi_frame_ok(
    project: Seq<char>,
    branch: Option<String>,
    states: Seq<PipelineStatus>,
    f: MultiFrame,
) -> bool {
    &&& f.title@ == project
    &&& f.branch_title@ == branch_title_view(branch)
    &&& f.spans@.len() == states.len()
    &&& forall|k: int| 0 <= k < states.len() ==> {
        &&& (#[trigger] f.spans@[k]).text@ == pipeline_glyph(states[k])
        &&& f.spans@[k].style == pipeline_style(states[k])
    }
}

/// One pipeline span per state, in order.
fn status_spans(states: &Vec<PipelineStatus>) -> (v: Vec<Span>)
    ensures
        v@.len() == states@.len(),
        forall|k: int| 0 <= k < states@.len() ==> {
            &&& (#[trigger] v@[k]).text@ == pipeline_glyph(states@[k])
            &&& v@[k].style == pipeline_style(states@[k])
        },
{
    let mut spans: Vec<Span> = Vec::new();
    let n = states.len();
    let mut i: usize = 0;
    while i < n
        invariant
            0 <= i <= n,
            n == states@.len(),
            spans@.len() == i,
            forall|k: int| 0 <= k < i ==> {
                &&& (#[trigger] spans@[k]).text@ == pipeline_glyph(states@[k])
                &&& spans@[k].style == pipeline_style(states@[k])
            },
        decreases n - i,
    {
        let sp = pipeline_span(&states[i]);
        spans.push(sp);
        i = i + 1;
    }
    spans
}

/// The branch title as an owned string.
fn branch_title(b: &Option<String>) -> (r: String)
    ensures
        r@ == branch_title_view(*b),
{
    match b {
        Some(s) => s.clone(),
        None => String::new(),
    }
}

/// Render one history-view update.
pub fn render_multi(u: &BranchPipelineUpdate) -> (f: MultiFrame)
    ensures
        multi_frame_ok(u.project@, u.branch, u.states@, f),
{
    MultiFrame {
        title: u.project.clone(),
        branch_title: branch_title(&u.branch),
        spans: status_spans(&u.states),
    }
}

/// Render the whole history projection: one frame per entry, in the
/// projection's lexicographic key order.
pub fn render_history(proj: &MultiProjection) -> (fs: Vec<MultiFrame>)
    ensures
        fs@.len() == proj.entries@.len(),
        forall|i: int| 0 <= i < fs@.len() ==> multi_frame_ok(
            proj.entries@[i].project@,
            proj.entries@[i].branch,
            proj.entries@[i].states@,
            #[trigger] fs@[i],
        ),
{
    let mut fs: Vec<MultiFrame> = Vec::new();
    let n = proj.entries.len();
    let mut i: usize = 0;
    while i < n
        invariant
            0 <= i <= n,
            n == proj.entries@.len(),
            fs@.len() == i,
            forall|k: int| 0 <= k < i ==> multi_frame_ok(
                proj.entries@[k].project@,
                proj.entries@[k].branch,
                proj.entries@[k].states@,
                #[trigger] fs@[k],
            ),
        decreases n - i,
    {
        let e = &proj.entries[i];
        let f = MultiFrame {
            title: e.project.clone(),
            branch_title: branch_title(&e.branch),
            spans: status_spans(&e.states),
        };
        fs.push(f);
        i = i + 1;
    }
    fs
}

/// Rendering is idempotent: any two frames drawn from one unchanged project
/// carry the same text and the same styles, so repeated paints are
/// identical.
pub proof fn lemma_single_render_identical(p: Project, f1: SingleFrame, f2: SingleFrame)
    requires
        p.pipelines@.len() == 1,
        single_frame_ok(p, f1),
        single_frame_ok(p, f2),
    ensures
        f1.title@ == f2.title@,
        f1.ref_title@ == f2.ref_title@,
        f1.name_title@ == f2.name_title@,
        f1.rows@.len() == f2.rows@.len(),
        forall|i: int| 0 <= i < f1.rows@.len() ==> {
            &&& (#[trigger] f1.rows@[i]).name@ == f2.rows@[i].name@
            &&& f1.rows@[i].height == f2.rows@[i].height
            &&& f1.rows@[i].spans@.len() == f2.rows@[i].spans@.len()
            &&& forall|k: int| 0 <= k < f1.rows@[i].spans@.len() ==> {
                &&& (#[trigger] f1.rows@[i].spans@[k]).text@ == f2.rows@[i].spans@[k].text@
                &&& f1.rows@[i].spans@[k].style == f2.rows@[i].spans@[k].style
            }
        },
{
    assert forall|i: int| 0 <= i < f1.rows@.len() implies {
        &&& (#[trigger] f1.rows@[i]).name@ == f2.rows@[i].name@
        &&& f1.rows@[i].height == f2.rows@[i].height
        &&& f1.rows@[i].spans@.len() == f2.rows@[i].spans@.len()
        &&& forall|k: int| 0 <= k < f1.rows@[i].spans@.len() ==> {
            &&& (#[trigger] f1.rows@[i].spans@[k]).text@ == f2.rows@[i].spans@[k].text@
            &&& f1.rows@[i].spans@[k].style == f2.rows@[i].spans@[k].style
        }
    } by {
        assert(stage_row_ok(p.pipelines@[0].stages@[i], f1.rows@[i]));
        assert(stage_row_ok(p.pipelines@[0].stages@[i], f2.rows@[i]));
    }
}

/// Rendering is idempotent for the history view as well: any two frames
/// drawn from one unchanged key and state sequence are the same frame.
pub proof fn lemma_multi_render_identical(
    project: Seq<char>,
    branch: Option<String>,
    states: Seq<PipelineStatus>,
    f1: MultiFrame,
    f2: MultiFrame,
)
    requires
        multi_frame_ok(project, branch, states, f1),
        multi_frame_ok(project, branch, states, f2),
    ensures
        f1.title@ == f2.title@,
        f1.branch_title@ == f2.branch_title@,
        f1.spans@.len() == f2.spans@.len(),
        forall|k: int| 0 <= k < f1.spans@.len() ==> {
            &&& (#[trigger] f1.spans@[k]).text@ == f2.spans@[k].text@
            &&& f1.spans@[k].style == f2.spans@[k].style
        },
{
}

} // verus!
