//! Turns the contents of an Android application archive into a structured
//! program representation: decoded Dalvik instructions, per-method control-flow
//! graphs with dominators and natural loops, and the methods of the
//! application in a deterministic call-graph order.

pub mod apk;
pub mod cfg;
pub mod dex;
pub mod dex_parsing;
pub mod instruction;
pub mod manifest;
pub mod marks;
pub mod text;

pub use apk::{Apk, CompactApk};
