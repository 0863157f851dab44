//! Acquisition of a local inference runtime and its model artifacts.
//!
//! The library resolves platform-dependent install locations, decides when a
//! download is needed, turns streamed byte counts and pull-status records into
//! ordered progress events, and classifies the failures that can arise.  All
//! I/O (filesystem probes, HTTP transfers) is performed by the surrounding
//! application, which feeds plain values into the verified logic here.

pub mod download;
pub mod errors;
pub mod paths;
pub mod progress;
pub mod pull;
pub mod strutil;
pub mod tags;
pub mod urls;
pub mod whisper;
