//! Session bridge for embedding a terminal in a GUI render loop.
//!
//! The bridge owns the glue between three independently paced actors: a child
//! process behind a pseudo-terminal, a background worker that decodes the
//! child's byte stream into terminal actions, and a cooperative render loop
//! that must never block. The modules here hold the decisions and data
//! transformations of that glue: size negotiation, input translation,
//! stream decoding, and the screen state the renderer reads.

pub mod action;
pub mod cluster;
pub mod decoder;
pub mod input;
pub mod screen;
pub mod session;
pub mod keys;
pub mod size;
pub mod style;
