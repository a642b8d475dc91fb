use super::{ParseError, PromotionPiece, Square};
use crate::text::is_word;
use vstd::prelude::*;
use vstd::string::*;

verus! {

/// A move on the board, in long algebraic notation.
#[derive(Debug, Clone, Copy, PartialEq, Eq, Structural)]
pub struct Move {
    /// The source square where the moving piece started.
    pub source: Square,
    /// The target square where the moving piece is going to.
    pub target: Square,
    /// The piece that the pawn promoted to, if the move is a promotion.
    pub promotion: Option<PromotionPiece>,
}

impl Move {
    /// The text of the move: the source square, the target square and, for a
    /// promotion only, the letter of the promotion piece, with nothing between
    /// them.
    pub open spec fn text(self) -> Seq<char> {
        self.source.text() + self.target.text() + match self.promotion {
            Some(piece) => piece.text(),
            None => Seq::empty(),
        }
    }

    /// What a text parses to. A text of four or five characters is split into
    /// two characters for the source, two for the target and, if there is a
    /// fifth, one for the promotion piece; it is a move if every part parses.
    /// Any other text is an error.
    pub open spec fn parse(s: Seq<char>) -> Result<Move, ParseError> {
        if s.len() == 4 || s.len() == 5 {
            match (Square::parse(s.subrange(0, 2)), Square::parse(s.subrange(2, 4))) {
                (Ok(source), Ok(target)) => {
                    if s.len() == 4 {
                        Ok(Move { source, target, promotion: None })
                    } else {
                        match PromotionPiece::parse(s.subrange(4, 5)) {
                            Ok(piece) => Ok(Move { source, target, promotion: Some(piece) }),
                            Err(_) => Err(ParseError),
                        }
                    }
                },
                _ => Err(ParseError),
            }
        } else {
            Err(ParseError)
        }
    }

    /// Create a new move without a promotion.
    pub fn new(source: Square, target: Square) -> (mv: Self)
        ensures
            mv == (Move { source, target, promotion: None }),
    {
        Move { source, target, promotion: None }
    }

    /// Create a new move with a promoting pawn.
    pub fn new_with_promotion(source: Square, target: Square, promotion: PromotionPiece) -> (mv:
        Self)
        ensures
            mv == (Move { source, target, promotion: Some(promotion) }),
    {
        Move { source, target, promotion: Some(promotion) }
    }

    /// Appends the text of the move to `out`.
    pub(crate) fn write_to(&self, out: &mut String)
        ensures
            final(out)@ == old(out)@ + self.text(),
    {
        self.source.write_to(out);
        self.target.write_to(out);
        if let Some(piece) = &self.promotion {
            out.append(piece.as_str());
        }
    }

    /// Formats the move in long algebraic notation.
    pub fn to_string(&self) -> (s: String)
        ensures
            s@ == self.text(),
    {
        let mut s = String::new();
        self.write_to(&mut s);
        s
    }

    /// Parses a move in long algebraic notation: four characters, or five for
    /// a promotion. A text that fails in any part is no move.
    pub fn from_str(s: &str) -> (r: Result<Move, ParseError>)
        ensures
            r == Move::parse(s@),
    {
        let len = s.unicode_len();
        if len != 4 && len != 5 {
            return Err(ParseError);
        }
        let source = match Square::from_str(s.substring_char(0, 2)) {
            Ok(square) => square,
            Err(e) => return Err(e),
        };
        let target = match Square::from_str(s.substring_char(2, 4)) {
            Ok(square) => square,
            Err(e) => return Err(e),
        };
        let promotion = if len == 5 {
            match PromotionPiece::from_str(s.substring_char(4, 5)) {
                Ok(piece) => Some(piece),
                Err(e) => return Err(e),
            }
        } else {
            None
        };
        Ok(Move { source, target, promotion })
    }

    /// A text parses to a move exactly when it is that move's text: parsing
    /// inverts formatting, and formatting inverts parsing.
    pub proof fn lemma_round_trip(self, s: Seq<char>)
        ensures
            Move::parse(self.text()) == Ok::<Move, ParseError>(self),
            Move::parse(s) == Ok::<Move, ParseError>(self) <==> s == self.text(),
    {
        let t = self.text();
        self.source.lemma_round_trip(t.subrange(0, 2));
        self.target.lemma_round_trip(t.subrange(2, 4));
        if let Some(piece) = self.promotion {
            piece.lemma_round_trip(t.subrange(4, 5));
        }
        if Move::parse(s) == Ok::<Move, ParseError>(self) {
            self.source.lemma_round_trip(s.subrange(0, 2));
            self.target.lemma_round_trip(s.subrange(2, 4));
            if s.len() == 4 {
                assert(s =~= s.subrange(0, 2) + s.subrange(2, 4));
            } else {
                self.promotion->0.lemma_round_trip(s.subrange(4, 5));
                assert(s =~= s.subrange(0, 2) + s.subrange(2, 4) + s.subrange(4, 5));
            }
        }
    }

    /// A text of any length but four and five is no move, and a text of five
    /// characters whose last is no promotion piece is no move either.
    pub proof fn lemma_length(s: Seq<char>)
        ensures
            s.len() != 4 && s.len() != 5 ==> Move::parse(s) is Err,
            s.len() == 5 && PromotionPiece::parse(s.subrange(4, 5)) is Err ==> Move::parse(s) is Err,
            Move::parse(s) matches Ok(mv) ==> (s.len() == 5 <==> mv.promotion is Some),
    {
    }

    /// The text of a move is one word: it has four or five characters, none
    /// of them whitespace.
    pub proof fn lemma_text_is_word(self)
        ensures
            is_word(self.text()),
            self.text().len() == if self.promotion is Some { 5int } else { 4int },
    {
    }
}

impl core::str::FromStr for Move {
    type Err = ParseError;

    fn from_str(s: &str) -> (r: Result<Self, Self::Err>)
        ensures
            r == Move::parse(s@),
    {
        Move::from_str(s)
    }
}

} // verus!
