//! Sampling of networked power meters: the status documents they report, the points a
//! sampling cycle writes, the loop's decisions, and the integer parts of the solar
//! position estimate that accompanies each sample.

pub mod angle;
pub mod clock;
pub mod response;
pub mod datapoint;
pub mod cycle;
pub mod scheduler;
