//! Orchestration of decode tasks for encrypted audio containers.
//!
//! The crate turns submitted inputs into decode jobs, follows each job to its
//! terminal outcome and reconciles completions, which may arrive in any order,
//! with the submission they belong to. Two substrates share one task
//! lifecycle: a pool of worker threads for batch runs ([`pool`]) and a
//! registry of cooperative reads for interactive sessions ([`app`]).
//!
//! Decryption itself is not part of this crate: the pipelines take what a
//! decoder returned and decide names, states and failures. Threads, channels
//! and reads are not part of it either: the crate says what is to be sent or
//! read, and its caller does it.
//!
//! - [`name`]: stem and extension of a file name
//! - [`dump_api`]: audio and image formats and the texts derived from them
//! - [`pipeline`]: classification of inputs and the result of a pipeline
//! - [`task`]: a task and its states
//! - [`app`]: the registry of an interactive session
//! - [`completion`]: what holds of a session in whatever order reads complete
//! - [`pool`]: the plan of a batch run
//! - [`cli`]: the failures of a batch run
//! - [`error`]: the failures of a pipeline
//! - [`foreign`]: the calls into other crates

pub mod app;
pub mod cli;
pub mod completion;
pub mod dump_api;
pub mod error;
pub mod foreign;
pub mod name;
pub mod pipeline;
pub mod pool;
pub mod task;
