//! A simpler storage variant whose values are plain strings.

pub mod engine;
