//! OS Camp: a dashboard over a sequence of graded exercises on operating
//! systems, and verified building blocks for what the exercises are about.
//!
//! The dashboard tracks which exercises pass their tests, lets the user move
//! between them, and tests an exercise again when its source changes. Its
//! logic lives here and is proved: the controller of the session
//! ([`controller`]), the progress of the exercises ([`progress`]), the key
//! map ([`input`]), the consumer side of the file watcher ([`watcher`]) and
//! every character that is drawn ([`render`], [`report`], [`text`]). The
//! program around it reads the keyboard, watches the files, runs the tests
//! and writes to the terminal.
//!
//! The building blocks follow the chapters of the course: page tables
//! ([`page_table`]), a kernel without the standard library ([`no_std_dev`]),
//! atomic memory operations ([`os_concurrency`]), futures
//! ([`async_programming`]) and the switch between tasks
//! ([`context_switch`]).

pub mod async_programming;
pub mod context_switch;
pub mod controller;
pub mod exercise;
pub mod input;
pub mod no_std_dev;
pub mod os_concurrency;
pub mod page_table;
pub mod progress;
pub mod render;
pub mod report;
pub mod style;
pub mod text;
pub mod watcher;
