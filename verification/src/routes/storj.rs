//! The routes that work within the process-backed sink alone.

pub mod move2nsfw;
