//! The decisions behind each route of the service.

pub mod duplicate;
pub mod duplicate_hls;
pub mod move2nsfw;
pub mod sia;
pub mod storj;
