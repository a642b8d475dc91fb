use super::ParseError;
use vstd::prelude::*;
use vstd::string::*;

verus! {

/// A piece that a pawn can promote to.
#[derive(Debug, Clone, Copy, PartialEq, Eq, Structural)]
pub enum PromotionPiece {
    /// Promoting to a knight, denoted 'n'.
    Knight,
    /// Promoting to a bishop, denoted 'b'.
    Bishop,
    /// Promoting to a rook, denoted 'r'.
    Rook,
    /// Promoting to a queen, denoted 'q'.
    Queen,
}

impl PromotionPiece {
    /// The lower-case letter that denotes the piece.
    pub open spec fn letter(self) -> char {
        match self {
            PromotionPiece::Knight => 'n',
            PromotionPiece::Bishop => 'b',
            PromotionPiece::Rook => 'r',
            PromotionPiece::Queen => 'q',
        }
    }

    /// The text of the piece: its letter alone.
    pub open spec fn text(self) -> Seq<char> {
        seq![self.letter()]
    }

    /// The piece that a character denotes, if any.
    pub open spec fn of_letter(c: char) -> Option<PromotionPiece> {
        if c == 'n' {
            Some(PromotionPiece::Knight)
        } else if c == 'b' {
            Some(PromotionPiece::Bishop)
        } else if c == 'r' {
            Some(PromotionPiece::Rook)
        } else if c == 'q' {
            Some(PromotionPiece::Queen)
        } else {
            None
        }
    }

    /// What a text parses to: the piece whose letter is its only character.
    pub open spec fn parse(s: Seq<char>) -> Result<PromotionPiece, ParseError> {
        if s.len() == 1 && Self::of_letter(s[0]) is Some {
            Ok(Self::of_letter(s[0])->0)
        } else {
            Err(ParseError)
        }
    }

    /// The text of the piece as a string slice.
    pub fn as_str(&self) -> (s: &'static str)
        ensures
            s@ == self.text(),
    {
        proof {
            reveal_strlit("n");
            reveal_strlit("b");
            reveal_strlit("r");
            reveal_strlit("q");
        }
        let s = match self {
            PromotionPiece::Knight => "n",
            PromotionPiece::Bishop => "b",
            PromotionPiece::Rook => "r",
            PromotionPiece::Queen => "q",
        };
        s
    }

    /// Formats the piece as its letter.
    pub fn to_string(&self) -> (s: String)
        ensures
            s@ == self.text(),
    {
        String::from_str(self.as_str())
    }

    /// Parses a promotion piece: exactly one of the lower-case letters `n`,
    /// `b`, `r` and `q`.
    pub fn from_str(s: &str) -> (r: Result<PromotionPiece, ParseError>)
        ensures
            r == PromotionPiece::parse(s@),
    {
        if s.unicode_len() != 1 {
            return Err(ParseError);
        }
        match s.get_char(0) {
            'n' => Ok(PromotionPiece::Knight),
            'b' => Ok(PromotionPiece::Bishop),
            'r' => Ok(PromotionPiece::Rook),
            'q' => Ok(PromotionPiece::Queen),
            _ => Err(ParseError),
        }
    }

    /// A text parses to a piece exactly when it is that piece's text: parsing
    /// inverts formatting, and formatting inverts parsing.
    pub proof fn lemma_round_trip(self, s: Seq<char>)
        ensures
            PromotionPiece::parse(self.text()) == Ok::<PromotionPiece, ParseError>(self),
            PromotionPiece::parse(s) == Ok::<PromotionPiece, ParseError>(self) <==> s
                == self.text(),
    {
        if PromotionPiece::parse(s) == Ok::<PromotionPiece, ParseError>(self) {
            assert(s =~= self.text());
        }
    }
}

impl core::str::FromStr for PromotionPiece {
    type Err = ParseError;

    fn from_str(s: &str) -> (r: Result<Self, Self::Err>)
        ensures
            r == PromotionPiece::parse(s@),
    {
        PromotionPiece::from_str(s)
    }
}

} // verus!
