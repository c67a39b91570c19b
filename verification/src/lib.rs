//! Verified core of a terminal dashboard that watches CI pipelines on a
//! GitLab-compatible forge.
//!
//! This crate holds the logic that the dashboard's behaviour rests on: the
//! domain data model, normalization of nullable wire data, reference parsing,
//! keyboard-event classification, the projection that the renderer paints
//! from, the renderer's glyph and layout decisions, and the state machines of
//! the render loop and the pollers. All of it is specified with `requires` /
//! `ensures` contracts and checked by Verus. The unverified shell around it
//! (terminal I/O, HTTP, async plumbing) lives outside this crate and only
//! exchanges plain values with it.

pub mod config;
pub mod events;
pub mod gitlab_ref;
pub mod model;
pub mod poller;
pub mod projection;
pub mod query;
pub mod render;
pub mod session;
pub mod status;
pub mod text;
pub mod theme;
pub mod wire;
