//! Query specifications for the two remote queries: which project, which
//! ref, how many pipelines, and an optional status filter.

use vstd::prelude::*;
use crate::status::PipelineStatus;

verus! {

/// Parameters of the jobs query: a project with its recent pipelines,
/// stages and jobs.
#[derive(Debug)]
pub struct JobQueryParams {
    pub project: String,
    pub git_ref: Option<String>,
    pub pipeline_count: Option<i64>,
    pub pipeline_status: Option<PipelineStatus>,
}

impl JobQueryParams {
    /// A query for the given project: no ref, no count, no status filter.
    pub fn new(project: String) -> (r: Self)
        ensures
            r.project == project,
            r.git_ref is None,
            r.pipeline_count is None,
            r.pipeline_status is None,
    {
        JobQueryParams { project, git_ref: None, pipeline_count: None, pipeline_status: None }
    }

    /// Restrict the query to one ref.
    pub fn with_reference(self, reference: String) -> (r: Self)
        ensures
            r.git_ref == Some(reference),
            r.project == self.project,
            r.pipeline_count == self.pipeline_count,
            r.pipeline_status == self.pipeline_status,
    {
        JobQueryParams { git_ref: Some(reference), ..self }
    }

    /// Ask for the given number of most recent pipelines.
    pub fn with_count(self, count: i64) -> (r: Self)
        requires
            1 <= count <= 100,
        ensures
            r.pipeline_count == Some(count),
            r.project == self.project,
            r.git_ref == self.git_ref,
            r.pipeline_status == self.pipeline_status,
    {
        JobQueryParams { pipeline_count: Some(count), ..self }
    }

    /// Filter the pipelines by status.
    pub fn with_status(self, status: PipelineStatus) -> (r: Self)
        ensures
            r.pipeline_status == Some(status),
            r.project == self.project,
            r.git_ref == self.git_ref,
            r.pipeline_count == self.pipeline_count,
    {
        JobQueryParams { pipeline_status: Some(status), ..self }
    }
}

/// Parameters of the pipelines query: the recent top-level statuses of one
/// project or branch.
#[derive(Debug)]
pub struct PipelinesQueryArgs {
    pub project: String,
    pub git_ref: Option<String>,
    pub pipeline_count: Option<i64>,
    pub pipeline_status: Option<PipelineStatus>,
}

impl PipelinesQueryArgs {
    /// A query for the given project: no ref, no count, no status filter.
    pub fn new(project: String) -> (r: Self)
        ensures
            r.project == project,
            r.git_ref is None,
            r.pipeline_count is None,
            r.pipeline_status is None,
    {
        PipelinesQueryArgs { project, git_ref: None, pipeline_count: None, pipeline_status: None }
    }

    /// Restrict the query to one branch.
    pub fn with_reference(self, reference: String) -> (r: Self)
        ensures
            r.git_ref == Some(reference),
            r.project == self.project,
            r.pipeline_count == self.pipeline_count,
            r.pipeline_status == self.pipeline_status,
    {
        PipelinesQueryArgs { git_ref: Some(reference), ..self }
    }

    /// Ask for the given number of most recent pipelines.
    pub fn with_count(self, count: i64) -> (r: Self)
        requires
            1 <= count <= 100,
        ensures
            r.pipeline_count == Some(count),
            r.project == self.project,
            r.git_ref == self.git_ref,
            r.pipeline_status == self.pipeline_status,
    {
        PipelinesQueryArgs { pipeline_count: Some(count), ..self }
    }

    /// Filter the pipelines by status.
    pub fn with_status(self, status: PipelineStatus) -> (r: Self)
        ensures
            r.pipeline_status == Some(status),
            r.project == self.project,
            r.git_ref == self.git_ref,
            r.pipeline_count == self.pipeline_count,
    {
        PipelinesQueryArgs { pipeline_status: Some(status), ..self }
    }
}

} // verus!
