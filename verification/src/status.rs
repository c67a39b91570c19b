//! Pipeline and job statuses as the forge reports them.
//!
//! Each status is a tagged variant over the labels the GraphQL API uses.
//! Unknown labels are never coerced into a known variant: they are preserved
//! verbatim in `Other`, so that a newer server cannot crash or mislead the
//! renderer.

use vstd::prelude::*;
use crate::text::str_eq;

verus! {

/// Status of a whole pipeline.
#[derive(Debug, PartialEq, Eq)]
pub enum PipelineStatus {
    Success,
    Failed,
    Running,
    Created,
    Pending,
    Preparing,
    WaitingForResource,
    WaitingForCallback,
    Scheduled,
    Manual,
    Skipped,
    Canceled,
    Canceling,
    Other(String),
}

/// Status of a single job within a stage.
#[derive(Debug, PartialEq, Eq)]
pub enum JobStatus {
    Created,
    Pending,
    Running,
    Success,
    Failed,
    Canceled,
    Skipped,
    Manual,
    Other(String),
}

/// The wire label of a pipeline status; an `Other` keeps its raw label.
pub open spec fn pipeline_label(s: PipelineStatus) -> Seq<char> {
    match s {
        PipelineStatus::Success => "SUCCESS"@,
        PipelineStatus::Failed => "FAILED"@,
        PipelineStatus::Running => "RUNNING"@,
        PipelineStatus::Created => "CREATED"@,
        PipelineStatus::Pending => "PENDING"@,
        PipelineStatus::Preparing => "PREPARING"@,
        PipelineStatus::WaitingForResource => "WAITING_FOR_RESOURCE"@,
        PipelineStatus::WaitingForCallback => "WAITING_FOR_CALLBACK"@,
        PipelineStatus::Scheduled => "SCHEDULED"@,
        PipelineStatus::Manual => "MANUAL"@,
        PipelineStatus::Skipped => "SKIPPED"@,
        PipelineStatus::Canceled => "CANCELED"@,
        PipelineStatus::Canceling => "CANCELING"@,
        PipelineStatus::Other(raw) => raw@,
    }
}

/// Whether a label names a known pipeline status.
pub open spec fn pipeline_label_known(s: Seq<char>) -> bool {
    ||| s == "SUCCESS"@
    ||| s == "FAILED"@
    ||| s == "RUNNING"@
    ||| s == "CREATED"@
    ||| s == "PENDING"@
    ||| s == "PREPARING"@
    ||| s == "WAITING_FOR_RESOURCE"@
    ||| s == "WAITING_FOR_CALLBACK"@
    ||| s == "SCHEDULED"@
    ||| s == "MANUAL"@
    ||| s == "SKIPPED"@
    ||| s == "CANCELED"@
    ||| s == "CANCELING"@
}

/// The wire label of a job status; an `Other` keeps its raw label.
pub open spec fn job_label(s: JobStatus) -> Seq<char> {
    match s {
        JobStatus::Created => "CREATED"@,
        JobStatus::Pending => "PENDING"@,
        JobStatus::Running => "RUNNING"@,
        JobStatus::Success => "SUCCESS"@,
        JobStatus::Failed => "FAILED"@,
        JobStatus::Canceled => "CANCELED"@,
        JobStatus::Skipped => "SKIPPED"@,
        JobStatus::Manual => "MANUAL"@,
        JobStatus::Other(raw) => raw@,
    }
}

/// Whether a label names a known job status.
pub open spec fn job_label_known(s: Seq<char>) -> bool {
    ||| s == "CREATED"@
    ||| s == "PENDING"@
    ||| s == "RUNNING"@
    ||| s == "SUCCESS"@
    ||| s == "FAILED"@
    ||| s == "CANCELED"@
    ||| s == "SKIPPED"@
    ||| s == "MANUAL"@
}

impl Clone for PipelineStatus {
    /// A clone is equal to the original, including an `Other`'s raw label.
    fn clone(&self) -> (r: Self)
        ensures
            r == *self,
    {
        match self {
            PipelineStatus::Success => PipelineStatus::Success,
            PipelineStatus::Failed => PipelineStatus::Failed,
            PipelineStatus::Running => PipelineStatus::Running,
            PipelineStatus::Created => PipelineStatus::Created,
            PipelineStatus::Pending => PipelineStatus::Pending,
            PipelineStatus::Preparing => PipelineStatus::Preparing,
            PipelineStatus::WaitingForResource => PipelineStatus::WaitingForResource,
            PipelineStatus::WaitingForCallback => PipelineStatus::WaitingForCallback,
            PipelineStatus::Scheduled => PipelineStatus::Scheduled,
            PipelineStatus::Manual => PipelineStatus::Manual,
            PipelineStatus::Skipped => PipelineStatus::Skipped,
            PipelineStatus::Canceled => PipelineStatus::Canceled,
            PipelineStatus::Canceling => PipelineStatus::Canceling,
            PipelineStatus::Other(raw) => PipelineStatus::Other(raw.clone()),
        }
    }
}

impl Clone for JobStatus {
    /// A clone is equal to the original, including an `Other`'s raw label.
    fn clone(&self) -> (r: Self)
        ensures
            r == *self,
    {
        match self {
            JobStatus::Created => JobStatus::Created,
            JobStatus::Pending => JobStatus::Pending,
            JobStatus::Running => JobStatus::Running,
            JobStatus::Success => JobStatus::Success,
            JobStatus::Failed => JobStatus::Failed,
            JobStatus::Canceled => JobStatus::Canceled,
            JobStatus::Skipped => JobStatus::Skipped,
            JobStatus::Manual => JobStatus::Manual,
            JobStatus::Other(raw) => JobStatus::Other(raw.clone()),
        }
    }
}

impl PipelineStatus {
    /// Decode a wire label. A known label yields its variant; an unknown
    /// label rounds-trips verbatim through `Other`, never a known variant.
    pub fn from_label(s: &str) -> (r: PipelineStatus)
        ensures
            pipeline_label(r) == s@,
            r is Other <==> !pipeline_label_known(s@),
    {
        if str_eq(s, "SUCCESS") {
            PipelineStatus::Success
        } else if str_eq(s, "FAILED") {
            PipelineStatus::Failed
        } else if str_eq(s, "RUNNING") {
            PipelineStatus::Running
        } else if str_eq(s, "CREATED") {
            PipelineStatus::Created
        } else if str_eq(s, "PENDING") {
            PipelineStatus::Pending
        } else if str_eq(s, "PREPARING") {
            PipelineStatus::Preparing
        } else if str_eq(s, "WAITING_FOR_RESOURCE") {
            PipelineStatus::WaitingForResource
        } else if str_eq(s, "WAITING_FOR_CALLBACK") {
            PipelineStatus::WaitingForCallback
        } else if str_eq(s, "SCHEDULED") {
            PipelineStatus::Scheduled
        } else if str_eq(s, "MANUAL") {
            PipelineStatus::Manual
        } else if str_eq(s, "SKIPPED") {
            PipelineStatus::Skipped
        } else if str_eq(s, "CANCELED") {
            PipelineStatus::Canceled
        } else if str_eq(s, "CANCELING") {
            PipelineStatus::Canceling
        } else {
            PipelineStatus::Other(String::from_str(s))
        }
    }

    /// The wire label of this status, as an owned string.
    pub fn label(&self) -> (r: String)
        ensures
            r@ == pipeline_label(*self),
    {
        match self {
            PipelineStatus::Success => String::from_str("SUCCESS"),
            PipelineStatus::Failed => String::from_str("FAILED"),
            PipelineStatus::Running => String::from_str("RUNNING"),
            PipelineStatus::Created => String::from_str("CREATED"),
            PipelineStatus::Pending => String::from_str("PENDING"),
            PipelineStatus::Preparing => String::from_str("PREPARING"),
            PipelineStatus::WaitingForResource => String::from_str("WAITING_FOR_RESOURCE"),
            PipelineStatus::WaitingForCallback => String::from_str("WAITING_FOR_CALLBACK"),
            PipelineStatus::Scheduled => String::from_str("SCHEDULED"),
            PipelineStatus::Manual => String::from_str("MANUAL"),
            PipelineStatus::Skipped => String::from_str("SKIPPED"),
            PipelineStatus::Canceled => String::from_str("CANCELED"),
            PipelineStatus::Canceling => String::from_str("CANCELING"),
            PipelineStatus::Other(raw) => raw.clone(),
        }
    }
}

impl JobStatus {
    /// Decode a wire label. A known label yields its variant; an unknown
    /// label rounds-trips verbatim through `Other`, never a known variant.
    pub fn from_label(s: &str) -> (r: JobStatus)
        ensures
            job_label(r) == s@,
            r is Other <==> !job_label_known(s@),
    {
        if str_eq(s, "CREATED") {
            JobStatus::Created
        } else if str_eq(s, "PENDING") {
            JobStatus::Pending
        } else if str_eq(s, "RUNNING") {
            JobStatus::Running
        } else if str_eq(s, "SUCCESS") {
            JobStatus::Success
        } else if str_eq(s, "FAILED") {
            JobStatus::Failed
        } else if str_eq(s, "CANCELED") {
            JobStatus::Canceled
        } else if str_eq(s, "SKIPPED") {
            JobStatus::Skipped
        } else if str_eq(s, "MANUAL") {
            JobStatus::Manual
        } else {
            JobStatus::Other(String::from_str(s))
        }
    }

    /// The wire label of this status, as an owned string.
    pub fn label(&self) -> (r: String)
        ensures
            r@ == job_label(*self),
    {
        match self {
            JobStatus::Created => String::from_str("CREATED"),
            JobStatus::Pending => String::from_str("PENDING"),
            JobStatus::Running => String::from_str("RUNNING"),
            JobStatus::Success => String::from_str("SUCCESS"),
            JobStatus::Failed => String::from_str("FAILED"),
            JobStatus::Canceled => String::from_str("CANCELED"),
            JobStatus::Skipped => String::from_str("SKIPPED"),
            JobStatus::Manual => String::from_str("MANUAL"),
            JobStatus::Other(raw) => raw.clone(),
        }
    }
}

/// Unknown wire labels round-trip: a pipeline status whose label is not a
/// known one can only be `Other`, and it carries that label verbatim.
pub proof fn lemma_unknown_pipeline_label_round_trip(r: PipelineStatus, s: Seq<char>)
    requires
        !pipeline_label_known(s),
        pipeline_label(r) == s,
    ensures
        r is Other,
        r->Other_0@ == s,
{
}

/// Unknown wire labels round-trip: a job status whose label is not a known
/// one can only be `Other`, and it carries that label verbatim.
pub proof fn lemma_unknown_job_label_round_trip(r: JobStatus, s: Seq<char>)
    requires
        !job_label_known(s),
        job_label(r) == s,
    ensures
        r is Other,
        r->Other_0@ == s,
{
}

} // verus!
