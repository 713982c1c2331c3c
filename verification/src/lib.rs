//! Automated, model-assisted editing of a code file.
//!
//! The crate drives a generate / apply / exercise / judge loop: a generative
//! service proposes a new version of a target artifact, the patch policy
//! decides how to write it into the working tree, an external exerciser runs
//! the result and captures log output, and the same service judges from the
//! logs whether the change behaves as intended, retrying under a fixed budget.
//! Everything that decides or computes lives here, verified; the network,
//! filesystem and process work around it stays in the accompanying binary.

pub mod debug;
pub mod executor;
pub mod feature;
pub mod numerals;
pub mod patch;
pub mod paths;
pub mod prompts;
pub mod runner;
pub mod verdict;
