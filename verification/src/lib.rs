//! Core of an interactive exercise trainer: cancellable work units that run a
//! learner's program, stream its output as events, and evaluate the captured
//! output against the checks attached to an exercise.

pub mod check;
pub mod event;
pub mod exo;
pub mod project;
pub mod dispatch;
pub mod runner;
pub mod seqs;
pub mod text;
pub mod work;
