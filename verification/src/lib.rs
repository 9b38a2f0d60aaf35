//! Normalized summaries of media-probe output.
//!
//! A probe tool describes a media container as a JSON document with a
//! `format` object, a `streams` array and a `chapters` array. This crate
//! reshapes such a document into a typed report, filling documented defaults
//! for whatever the document leaves out, and writes the report as JSON again.
//!
//! - [`json`]: JSON values and what they denote.
//! - [`text`]: unsigned decimal numbers and frame rates in text.
//! - [`report`]: the records of a report.
//! - [`normalize`]: from a document to its report.
//! - [`render`]: from a report to its JSON form.
//! - [`laws`]: what holds of every report.
//! - [`document`]: reading a document from text.
//! - [`probe`]: the decisions around a run of the probe tool.
//! - [`dialog`]: what the file dialogs are set up with.
//!
//! Nothing here touches the file system, a process or floating point: the
//! caller runs the tool, and forms the three numbers of a report that need
//! floating-point arithmetic.

pub mod json;
pub mod text;
pub mod report;
pub mod normalize;
pub mod render;
pub mod laws;
pub mod document;
pub mod probe;
pub mod dialog;
