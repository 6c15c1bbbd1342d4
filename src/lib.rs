//! A client library for a two-player board game on an 8x8 board: the rules
//! engine that tracks and advances the game, the typed protocol messages, and
//! the framing of the server's message stream.

pub mod args;
pub mod board;
pub mod conversion;
pub mod coordinates;
pub mod enums;
pub mod error;
pub mod framing;
pub mod game_result;
pub mod game_state;
pub mod logic;
pub mod message;
pub mod moves;
pub mod piece;
pub mod text;
pub mod xml_client;
pub mod xml_data;
pub mod xml_result;
pub mod xml_state;
