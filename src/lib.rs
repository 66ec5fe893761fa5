//! Asynchronous provider jobs: a registry that issues job ids, hands each job
//! one handle to report its status with, and answers status queries, with the
//! lifecycle `Pending -> InProgress -> Completed | Failed` enforced on every
//! report; and the pipeline that turns a provider call's outcome into a
//! job's terminal status.

pub mod config;
pub mod detector;
pub mod job;
pub mod keyed;
pub mod model;
pub mod pdf;
