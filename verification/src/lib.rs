//! Batch clip cutting: a job model, its loader, and the synthesis of the
//! transcoder commands that cut and label each clip.
//!
//! A job description names an output directory and a list of clips, each a
//! source file, a time range and a label. [`session::run_job`] reads a
//! description and begins the run of its job; the [`session::Session`] then
//! says, step by step, what is to be done on disk and with the engine, and
//! goes on from what the caller reports. Nothing in this crate touches the
//! disk or starts a process.

pub mod command;
pub mod cut;
pub mod document;
pub mod load_laws;
pub mod loader;
pub mod model;
pub mod path;
pub mod position;
pub mod run_laws;
pub mod sanitize;
pub mod session;
pub mod text;
pub mod watermark;

pub use cut::cut_clip;
pub use position::LabelPosition;
pub use session::run_job;
