//! Verified core of a checker that validates a course-repository submission:
//! the diagnostics it collects, the decision each check takes from what was
//! observed on disk or from a tool run, and the order in which checks run.

pub mod text;
pub mod paths;
pub mod diag;
pub mod checks;
pub mod pipeline;
pub mod laws;
