//! Persistence and window-geometry core of a desktop companion ("pet")
//! application.
//!
//! The crate has five parts:
//! - the typed configuration document (`model`) with its compiled-in
//!   defaults, well-formedness, and pure read-modify-write mutations;
//! - the lexemes of the on-disk format (`text`): integers, fixed-point
//!   decimals, booleans and quoted strings, each with a proved parse/render
//!   round trip;
//! - the document codec (`codec`), which renders the document to its
//!   sectioned text form and parses it back, with the round trip proved for
//!   every well-formed document;
//! - the configuration store (`store`), which plans every load, save and
//!   read-modify-write update, including backup-and-default recovery from a
//!   corrupt file (the embedding application performs the planned file
//!   effects);
//! - the speech-bubble placement calculator (`geometry`) and the attachment
//!   state machine (`bubble`) for the transient bubble window.

pub mod geometry;
pub mod model;
pub mod text;
pub mod codec;
pub mod store;
pub mod bubble;
