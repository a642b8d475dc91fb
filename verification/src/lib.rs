//! A codec for the text protocol spoken between a chess engine and its
//! front end: the notation of squares, moves and scores, the framing of a
//! protocol line, and the commands of both directions.
//!
//! Every function is verified against a model of its text as `Seq<char>`.

pub mod assumed;
pub mod chess;
pub mod command;
pub mod convert;
pub mod text;
