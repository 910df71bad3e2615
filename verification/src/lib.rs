//! Verified core of a libc written in Rust.
//!
//! The modules hold the computations behind the C entry points (memory and
//! string routines, character classification, the environment, fork
//! handlers, name-service record parsing, time conversions and assorted
//! small helpers), each stated over a mathematical model and proved.

pub mod mem;
pub mod data;
pub mod fork;
pub mod ctype;
pub mod env;
pub mod text;
pub mod nss;
pub mod time;
pub mod errno;
pub mod sys;
pub mod files;
pub mod rand48;
pub mod resolve;
pub mod cformat;
pub mod utmp;
