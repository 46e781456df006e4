//! Overlay composition pipeline for short vertical videos: a pure filter-graph
//! builder, the decisions of each pipeline stage, and the pages that report
//! the result. Processes and files are driven by the caller.
pub mod text;
pub mod template;
pub mod graph;
pub mod command;
pub mod probe;
pub mod naming;
pub mod pages;
pub mod pipeline;
