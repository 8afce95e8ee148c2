//! The core of a desktop video converter that drives an external encoder.
//!
//! The library decides; it starts no process and touches no file. For each
//! job it builds the encoder's command line, follows the encoder's
//! diagnostics to keep a progress record, walks the ladder of fallback
//! attempts when hardware encoding fails, and judges the finished file. The
//! program around it runs the encoder and reports back what happened, one
//! event at a time.
//!
//! - [`format`], [`preset`]: the tables of output formats and professional
//!   presets.
//! - [`command`]: the argument list of one attempt, and the plan of attempts.
//! - [`progress`]: the progress record and the parser of diagnostic lines.
//! - [`validate`]: the judgement on a finished output file.
//! - [`task`], [`supervisor`], [`manager`]: a job, the state machine that
//!   carries it through its attempts, and the registry of all jobs.
//! - [`request`], [`probe`]: what is settled before a job starts, and what
//!   the encoder reports about an input.
//! - [`gpu`], [`encoder`], [`locate`], [`folders`], [`datetime`]: the
//!   host's adapters and encoders, the search for the encoder binary, the
//!   default output folder, and calendar time.
//! - [`text`], [`decimal`], [`pattern`]: text, numerals and pattern search
//!   that the rest builds on.
//!
//! Times are whole microseconds and percentages thousandths of a percent,
//! so that every number in a contract is an integer.

pub mod command;
pub mod datetime;
pub mod decimal;
pub mod encoder;
pub mod error;
pub mod folders;
pub mod format;
pub mod gpu;
pub mod locate;
pub mod manager;
pub mod pattern;
pub mod preset;
pub mod probe;
pub mod progress;
pub mod request;
pub mod supervisor;
pub mod task;
pub mod text;
pub mod validate;
