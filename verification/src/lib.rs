//! The capture, process and restore pipeline of a clipboard text converter.

pub mod cycle;
pub mod error;
pub mod laws;
pub mod machine;
pub mod media;
pub mod notify;
pub mod paste;
pub mod payload;
pub mod png;
pub mod policy;
pub mod text;
pub mod tools;
