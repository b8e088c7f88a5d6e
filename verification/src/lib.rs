//! Document processing pipeline: overlapping text chunking, per-document
//! processing with failure isolation, resource tracking and batch summaries.

pub mod batch_handler;
pub mod benchmark;
pub mod chunker;
mod clock;
pub mod handler;
pub mod paths;
pub mod pipeline;
pub mod text;
pub mod uploader;
