//! A tiny identity-reporting service library.
//!
//! The executable around it serves one HTTP route that answers every request
//! with a single line of text: a UTC timestamp, a deployment namespace, a
//! hostname, a colored glyph chosen at startup, and a custom text. This crate
//! holds the logic behind that line — the glyph table, the namespace and
//! hostname resolution policies, and the composition of the response — each
//! with a proved contract. Reading the environment, the override file and the
//! network is left to the surrounding executable, which hands the values in.

pub mod glyph;
pub mod identity;
pub mod response;
pub mod text;
pub mod tidbits;
