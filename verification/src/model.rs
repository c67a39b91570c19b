//! Domain records that the pollers publish and the renderer paints from.
//!
//! All fields are plain values; a poller produces them once per cycle and
//! moves them to the render loop, which owns them until they are replaced.

use vstd::prelude::*;
use crate::status::{JobStatus, PipelineStatus};

verus! {

/// A single unit of work inside a stage.
#[derive(Debug, PartialEq, Eq)]
pub struct Job {
    pub name: String,
    pub status: JobStatus,
}

/// A named group of jobs within a pipeline; job order is the server-declared
/// order and the renderer preserves it.
#[derive(Debug, PartialEq, Eq)]
pub struct Stage {
    pub name: String,
    pub jobs: Vec<Job>,
}

/// One CI execution: a sequence of stages in server-declared order.
#[derive(Debug, PartialEq, Eq)]
pub struct Pipeline {
    pub id: String,
    pub name: String,
    pub git_ref: String,
    pub status: PipelineStatus,
    pub stages: Vec<Stage>,
}

/// A project together with its fetched pipelines. The single-pipeline view
/// expects exactly one pipeline here.
#[derive(Debug, PartialEq, Eq)]
pub struct Project {
    pub id: String,
    pub full_path: String,
    pub pipelines: Vec<Pipeline>,
}

/// One poll result for the history view: the most recent pipeline statuses
/// of one project/branch, newest first.
#[derive(Debug, PartialEq, Eq)]
pub struct BranchPipelineUpdate {
    pub project: String,
    pub branch: Option<String>,
    pub states: Vec<PipelineStatus>,
}

} // verus!
