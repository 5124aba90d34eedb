//! Building blocks of a dot-product throughput benchmark.
//!
//! A run reads the number of vector pairs from its command line
//! ([`count`]), passes through a fixed line of stages ([`phase`]), generates
//! the pairs and sums their dot products in a fixed order ([`schedule`]),
//! gives each generated component a random sign ([`sign`]), splits the
//! measured time into minutes, seconds and milliseconds ([`elapsed`]), and
//! prints a fixed set of lines ([`report`]). The floating-point arithmetic
//! on the vectors is left to the caller.

pub mod count;
pub mod elapsed;
pub mod phase;
pub mod report;
pub mod schedule;
pub mod sign;
