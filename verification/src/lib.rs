//! Verified core of the fabela JavaScript runtime: the embedded-payload
//! format, the decisions of a script run, and the value conversions between
//! the engine and its native modules.

pub mod error;
pub mod text;
pub mod binary;
pub mod vm;
pub mod runtime;
pub mod runner;
pub mod console;
pub mod sqlite;
pub mod registry;
pub mod os;
pub mod process;
pub mod compile;
