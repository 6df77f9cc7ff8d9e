//! Typed DNA and RNA sequences: validation against each kind's alphabet,
//! immutable sequence values, and transcription between the two kinds.
pub mod domain;
pub mod shared;
