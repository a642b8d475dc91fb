//! Several general chess constructs needed for the protocol, such as moves.

use crate::text::{has_upper_case, is_upper_case, lemma_solid_char_in_token, tokens};
use vstd::prelude::*;

mod file;
mod move_line;
mod mv;
mod promotion_piece;
mod rank;
mod score;
mod square;

pub use file::File;
pub use move_line::{
    lemma_line_any_spacing, lemma_line_round_trip, lemma_line_text_of_parsed, line_text,
    move_texts, parse_line, MoveLine,
};
pub use mv::Move;
pub use promotion_piece::PromotionPiece;
pub use rank::Rank;
pub use score::{Evaluation, Score};
pub use square::Square;

verus! {

/// An error occured while parsing the given text.
#[derive(Debug, Clone, Copy, PartialEq, Eq, Structural)]
pub struct ParseError;

/// The notation is case-sensitive: a text with an upper-case letter in it is
/// no file, no rank, no promotion piece, no square, no move and no line of
/// moves.
pub proof fn lemma_upper_case_never_parses(s: Seq<char>)
    requires
        has_upper_case(s),
    ensures
        File::parse(s) is Err,
        Rank::parse(s) is Err,
        PromotionPiece::parse(s) is Err,
        Square::parse(s) is Err,
        Move::parse(s) is Err,
        parse_line(s) is Err,
{
    let i = choose|i: int| 0 <= i < s.len() && is_upper_case(#[trigger] s[i]);
    lemma_upper_case_is_no_move(s);
    let at = lemma_solid_char_in_token(s, i);
    lemma_upper_case_is_no_move(tokens(s)[at.0]);
}

/// A text with an upper-case letter in it is no move.
proof fn lemma_upper_case_is_no_move(s: Seq<char>)
    requires
        has_upper_case(s),
    ensures
        Move::parse(s) is Err,
{
}

} // verus!
