//! A verified fixture corpus for exercising a static-analysis tool.
//!
//! The corpus maps each fixture (a named unit of intentionally flawed
//! sample code) to the set of diagnostic rules it is expected to trigger.
//! The harness module decides, from a list of reported findings, whether
//! a fixture's expectations are met, and the samples module holds verified
//! analogues of the sample routines the corpus describes.

pub mod corpus;
pub mod harness;
pub mod samples;
