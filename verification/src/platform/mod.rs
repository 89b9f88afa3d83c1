//! Native platforms.

pub mod windows;
