//! A two-player match of Paper, Scissors, Stone behind a rollup dispatcher,
//! with its rules proved.
//!
//! - [`model`] holds the plain data: actions, results, players, and what
//!   travels between this library and the dispatcher.
//! - [`rules`] is the beats-table.
//! - [`game`] is the match: joining, moving, and what never changes.
//! - [`token`] reads and writes the words for actions, request kinds and
//!   verdicts.
//! - [`payload`] frames bytes as hex text and back.
//! - [`service`] is the session that takes the dispatcher's answers one by
//!   one and says what to do next. It does no I/O of its own.

pub mod game;
pub mod model;
pub mod payload;
pub mod rules;
pub mod service;
pub mod token;
