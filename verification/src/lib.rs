//! Decision logic of a video relay service.
//!
//! The service copies videos and their still images from a content origin
//! into storage sinks, and moves them from the general to the restricted
//! partition. This crate holds what the service decides: where an object is
//! filed, which sinks receive it, what is asked of each sink and how its
//! answer reads, and what the service answers in turn. It performs no input
//! or output. Each piece of outside work is described as a plain value, a
//! child process, a call to the object store or an HTTP request, which the
//! caller performs and reports back.
//!
//! - `relay` fans one request out to its sinks and gathers the outcome;
//!   `mover` reads, writes and deletes in turn.
//! - `sink` describes sinks and writes, and models what the stores hold.
//! - `uplink`, `s3_client`, `routes::sia` and `sia_client` describe the
//!   operations of the three kinds of sink.
//! - `routes` holds the decisions of each route.
//! - `guarantees` states what holds of relays, moves, the two-phase upload
//!   and the token cache.

pub mod auth;
pub mod consts;
pub mod duplicate;
pub mod encoding;
pub mod guarantees;
pub mod http;
pub mod keys;
pub mod metadata;
pub mod move2nsfw;
pub mod mover;
pub mod process;
pub mod relay;
pub mod routes;
pub mod s3_client;
pub mod sia_client;
pub mod sink;
pub mod text;
pub mod uplink;
