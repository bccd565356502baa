//! Verified core of a file-appender tool.
//!
//! The tool repeatedly appends a message to a file while a reporter thread
//! turns the cumulative byte count into throughput figures. This library
//! holds everything that can be reasoned about: building the repeat buffer,
//! the writer's byte accounting, the throughput arithmetic and status line,
//! and the cooperative-shutdown model shared by both loops. The surrounding
//! binary only parses arguments, opens the file, spawns the threads and
//! performs the actual I/O.

pub mod buffer;
pub mod reporter;
pub mod writer;
