//! A bridge that lets a single-threaded host issue SQL queries against a
//! SQLite database without running async code itself.
//!
//! The library owns the process-wide connection registry and the background
//! execution engine, validates every request before any async work is
//! submitted, and turns untyped column bytes into dynamic scalar values while
//! preserving row and column order. The async edges themselves (connecting,
//! fetching, delivering completions back to the host) live outside the
//! library; they hand plain values in and take plain values back.

pub mod bridge;
pub mod connect;
pub mod error;
pub mod marshal;
pub mod sqltext;
pub mod state;
pub mod value;
