//! Wire-shaped data and its normalization into domain records.
//!
//! The forge's GraphQL responses are full of nullable fields and nullable
//! list elements. The shapes here mirror that, as plain values; the
//! `normalize_*` functions turn them into domain records by the fixed rules:
//! nullable names default to `"no name"` (`"no_name"` for jobs), nullable
//! lists default to empty, a missing job status defaults to `Created`, and
//! absent list elements are dropped while the order of the rest is kept.

use vstd::prelude::*;
use crate::model::{BranchPipelineUpdate, Job, Pipeline, Project, Stage};
use crate::status::{JobStatus, PipelineStatus};

verus! {

/// A job as the wire carries it: both fields nullable.
pub struct WireJob {
    pub name: Option<String>,
    pub status: Option<JobStatus>,
}

/// A stage as the wire carries it: nullable name, nullable job list with
/// nullable elements.
pub struct WireStage {
    pub name: Option<String>,
    pub jobs: Option<Vec<Option<WireJob>>>,
}

/// A pipeline as the wire carries it.
pub struct WirePipeline {
    pub id: String,
    pub name: Option<String>,
    pub git_ref: Option<String>,
    pub status: PipelineStatus,
    pub stages: Option<Vec<Option<WireStage>>>,
}

/// A project as the wire carries it, for the single-pipeline query.
pub struct WireProject {
    pub id: String,
    pub full_path: String,
    pub pipelines: Option<Vec<Option<WirePipeline>>>,
}

/// The elements of `s` that are present, in order.
pub open spec fn present_seq<A>(s: Seq<Option<A>>) -> Seq<A>
    decreases s.len(),
{
    if s.len() == 0 {
        Seq::empty()
    } else {
        let rest = present_seq(s.drop_last());
        match s.last() {
            Some(x) => rest.push(x),
            None => rest,
        }
    }
}

/// A nullable node list flattens to its present elements; an absent list is
/// empty.
pub open spec fn nodes_seq<A>(n: Option<Vec<Option<A>>>) -> Seq<A> {
    match n {
        Some(v) => present_seq(v@),
        None => Seq::empty(),
    }
}

/// A nullable name, with the given default.
pub open spec fn name_or_spec(n: Option<String>, default: Seq<char>) -> Seq<char> {
    match n {
        Some(s) => s@,
        None => default,
    }
}

/// `j` is the normalization of the wire job `w`.
pub open spec fn job_norm(w: WireJob, j: Job) -> bool {
    &&& j.name@ == name_or_spec(w.name, "no_name"@)
    &&& j.status == match w.status {
        Some(s) => s,
        None => JobStatus::Created,
    }
}

/// Element-wise normalization of a job sequence.
pub open spec fn jobs_norm(ws: Seq<WireJob>, js: Seq<Job>) -> bool {
    &&& js.len() == ws.len()
    &&& forall|k: int| 0 <= k < ws.len() ==> job_norm(ws[k], #[trigger] js[k])
}

/// `s` is the normalization of the wire stage `w`.
pub open spec fn stage_norm(w: WireStage, s: Stage) -> bool {
    &&& s.name@ == name_or_spec(w.name, "no name"@)
    &&& jobs_norm(nodes_seq(w.jobs), s.jobs@)
}

/// Element-wise normalization of a stage sequence.
pub open spec fn stages_norm(ws: Seq<WireStage>, ss: Seq<Stage>) -> bool {
    &&& ss.len() == ws.len()
    &&& forall|k: int| 0 <= k < ws.len() ==> stage_norm(ws[k], #[trigger] ss[k])
}

/// `p` is the normalization of the wire pipeline `w`.
pub open spec fn pipeline_norm(w: WirePipeline, p: Pipeline) -> bool {
    &&& p.id == w.id
    &&& p.name@ == name_or_spec(w.name, "no name"@)
    &&& p.git_ref@ == name_or_spec(w.git_ref, "no name"@)
    &&& p.status == w.status
    &&& stages_norm(nodes_seq(w.stages), p.stages@)
}

/// Element-wise normalization of a pipeline sequence.
pub open spec fn pipelines_norm(ws: Seq<WirePipeline>, ps: Seq<Pipeline>) -> bool {
    &&& ps.len() == ws.len()
    &&& forall|k: int| 0 <= k < ws.len() ==> pipeline_norm(ws[k], #[trigger] ps[k])
}

/// `p` is the normalization of the wire project `w`.
pub open spec fn project_norm(w: WireProject, p: Project) -> bool {
    &&& p.id == w.id
    &&& p.full_path == w.full_path
    &&& pipelines_norm(nodes_seq(w.pipelines), p.pipelines@)
}

/// Taking one more element either appends it to the present elements or
/// leaves them unchanged, according to its presence.
proof fn lemma_present_take_step<A>(s: Seq<Option<A>>, i: int)
    requires
        0 <= i < s.len(),
    ensures
        present_seq(s.take(i + 1)) == match s[i] {
            Some(x) => present_seq(s.take(i)).push(x),
            None => present_seq(s.take(i)),
        },
{
    assert(s.take(i + 1).drop_last() =~= s.take(i));
    assert(s.take(i + 1).last() == s[i]);
}

/// A nullable name with the default `"no name"` / `"no_name"` filled in.
fn name_or(n: &Option<String>, default: &str) -> (r: String)
    ensures
        r@ == name_or_spec(*n, default@),
{
    match n {
        Some(s) => s.clone(),
        None => String::from_str(default),
    }
}

/// Normalize one wire job: default name `"no_name"`, default status
/// `Created`.
pub fn normalize_job(w: &WireJob) -> (j: Job)
    ensures
        job_norm(*w, j),
{
    let status = match &w.status {
        Some(s) => s.clone(),
        None => JobStatus::Created,
    };
    Job { name: name_or(&w.name, "no_name"), status }
}

/// Normalize one wire stage: default name `"no name"`, absent job entries
/// dropped, order kept.
pub fn normalize_stage(w: &WireStage) -> (s: Stage)
    ensures
        stage_norm(*w, s),
{
    let mut jobs: Vec<Job> = Vec::new();
    match &w.jobs {
        None => {},
        Some(v) => {
            let n = v.len();
            let mut i: usize = 0;
            proof {
                assert(v@.take(0) =~= Seq::<Option<WireJob>>::empty());
            }
            while i < n
                invariant
                    0 <= i <= n,
                    n == v@.len(),
                    jobs_norm(present_seq(v@.take(i as int)), jobs@),
                decreases n - i,
            {
                proof {
                    lemma_present_take_step(v@, i as int);
                }
                match &v[i] {
                    Some(wj) => {
                        let j = normalize_job(wj);
                        jobs.push(j);
                    },
                    None => {},
                }
                i = i + 1;
            }
            proof {
                assert(v@.take(n as int) =~= v@);
            }
        },
    }
    Stage { name: name_or(&w.name, "no name"), jobs }
}

/// Normalize one wire pipeline: default name and ref `"no name"`, absent
/// stage entries dropped, order kept.
pub fn normalize_pipeline(w: &WirePipeline) -> (p: Pipeline)
    ensures
        pipeline_norm(*w, p),
{
    let mut stages: Vec<Stage> = Vec::new();
    match &w.stages {
        None => {},
        Some(v) => {
            let n = v.len();
            let mut i: usize = 0;
            proof {
                assert(v@.take(0) =~= Seq::<Option<WireStage>>::empty());
            }
            while i < n
                invariant
                    0 <= i <= n,
                    n == v@.len(),
                    stages_norm(present_seq(v@.take(i as int)), stages@),
                decreases n - i,
            {
                proof {
                    lemma_present_take_step(v@, i as int);
                }
                match &v[i] {
                    Some(ws) => {
                        let s = normalize_stage(ws);
                        stages.push(s);
                    },
                    None => {},
                }
                i = i + 1;
            }
            proof {
                assert(v@.take(n as int) =~= v@);
            }
        },
    }
    Pipeline {
        id: w.id.clone(),
        name: name_or(&w.name, "no name"),
        git_ref: name_or(&w.git_ref, "no name"),
        status: w.status.clone(),
        stages,
    }
}

/// Normalize one wire project: absent pipeline entries dropped, order kept.
pub fn normalize_project(w: &WireProject) -> (p: Project)
    ensures
        project_norm(*w, p),
{
    let mut pipelines: Vec<Pipeline> = Vec::new();
    match &w.pipelines {
        None => {},
        Some(v) => {
            let n = v.len();
            let mut i: usize = 0;
            proof {
                assert(v@.take(0) =~= Seq::<Option<WirePipeline>>::empty());
            }
            while i < n
                invariant
                    0 <= i <= n,
                    n == v@.len(),
                    pipelines_norm(present_seq(v@.take(i as int)), pipelines@),
                decreases n - i,
            {
                proof {
                    lemma_present_take_step(v@, i as int);
                }
                match &v[i] {
                    Some(wp) => {
                        let p = normalize_pipeline(wp);
                        pipelines.push(p);
                    },
                    None => {},
                }
                i = i + 1;
            }
            proof {
                assert(v@.take(n as int) =~= v@);
            }
        },
    }
    Project { id: w.id.clone(), full_path: w.full_path.clone(), pipelines }
}

/// Build one history-view update from a poll: absent status entries are
/// dropped, the newest-first order of the rest is kept, and the subject
/// project and branch are carried through unchanged.
pub fn branch_update(
    project: String,
    branch: Option<String>,
    nodes: Option<Vec<Option<PipelineStatus>>>,
) -> (u: BranchPipelineUpdate)
    ensures
        u.project == project,
        u.branch == branch,
        u.states@ == nodes_seq(nodes),
{
    let mut states: Vec<PipelineStatus> = Vec::new();
    match &nodes {
        None => {},
        Some(v) => {
            let n = v.len();
            let mut i: usize = 0;
            proof {
                assert(v@.take(0) =~= Seq::<Option<PipelineStatus>>::empty());
                assert(states@ =~= present_seq(v@.take(0)));
            }
            while i < n
                invariant
                    0 <= i <= n,
                    n == v@.len(),
                    states@ == present_seq(v@.take(i as int)),
                decreases n - i,
            {
                proof {
                    lemma_present_take_step(v@, i as int);
                }
                match &v[i] {
                    Some(st) => {
                        states.push(st.clone());
                    },
                    None => {},
                }
                i = i + 1;
            }
            proof {
                assert(v@.take(n as int) =~= v@);
            }
        },
    }
    BranchPipelineUpdate { project, branch, states }
}

} // verus!
