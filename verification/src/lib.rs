//! Controller and adapters for event-driven ingest pipelines.
//!
//! A pipeline run is triggered by one event that names an object in a content
//! store. The run fetches the object, decodes it into work items, processes
//! and publishes them, and hands a completion signal to a workflow
//! orchestrator. Two pipelines share this shape:
//!
//! - the aggregate pipeline decodes a list of sales records, has their total
//!   taken, and reports it to the workflow step that waits on a task token;
//! - the extract pipeline decodes a zip archive, publishes every member under
//!   a key derived from the archive's name, and starts a workflow on what it
//!   published.
//!
//! The library decides; it does no input or output. [`controller::Controller`]
//! is a state machine: a driver reports events to it, and it answers each with
//! the next action to perform. [`machine`] states the machine over
//! mathematical values, and [`laws`] proves what holds of every run.
//! [`archive`], [`records`] and [`signal`] are the adapters that the controller
//! composes; [`keys`], [`outcome`], [`error`], [`protocol`] and [`text`] hold
//! what they share.

pub mod archive;
pub mod controller;
pub mod error;
pub mod keys;
pub mod laws;
pub mod machine;
pub mod outcome;
pub mod protocol;
pub mod records;
pub mod signal;
pub mod text;
