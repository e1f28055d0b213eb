//! One executor per family of tools.

pub mod code;
pub mod fs;
pub mod llm;
pub mod shell;
