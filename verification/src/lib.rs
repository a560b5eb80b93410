//! Decoding of a player profile from an untyped wire record, and its
//! rendering as a title, a status line and labeled text blocks.

pub mod decode;
pub mod error;
pub mod present;
pub mod raw;
pub mod smmo_player;
pub mod text;
pub mod time;
