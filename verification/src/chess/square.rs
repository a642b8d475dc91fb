use super::{File, ParseError, Rank};
use vstd::prelude::*;
use vstd::string::*;

verus! {

/// A square on the chess board.
#[derive(Debug, Clone, Copy, PartialEq, Eq, Structural)]
pub struct Square {
    /// The file that the square is on.
    pub file: File,
    /// The rank that the square is on.
    pub rank: Rank,
}

impl Square {
    /// The text of the square: the file's letter, then the rank's digit.
    pub open spec fn text(self) -> Seq<char> {
        self.file.text() + self.rank.text()
    }

    /// What a text parses to. A text of two characters is split into one
    /// character for the file and one for the rank, and is a square if both
    /// parse; any other text is an error.
    pub open spec fn parse(s: Seq<char>) -> Result<Square, ParseError> {
        if s.len() == 2 {
            match (File::parse(s.subrange(0, 1)), Rank::parse(s.subrange(1, 2))) {
                (Ok(file), Ok(rank)) => Ok(Square { file, rank }),
                _ => Err(ParseError),
            }
        } else {
            Err(ParseError)
        }
    }

    /// Create a new square with the given file and rank.
    pub fn new(file: File, rank: Rank) -> (square: Self)
        ensures
            square == (Square { file, rank }),
    {
        Self { file, rank }
    }

    /// Appends the text of the square to `out`.
    pub(crate) fn write_to(&self, out: &mut String)
        ensures
            final(out)@ == old(out)@ + self.text(),
    {
        out.append(self.file.as_str());
        out.append(self.rank.as_str());
    }

    /// Formats the square as its file followed by its rank.
    pub fn to_string(&self) -> (s: String)
        ensures
            s@ == self.text(),
    {
        let mut s = String::new();
        self.write_to(&mut s);
        s
    }

    /// Parses a square: a file letter followed by a rank digit, and nothing
    /// else.
    pub fn from_str(s: &str) -> (r: Result<Square, ParseError>)
        ensures
            r == Square::parse(s@),
    {
        if s.unicode_len() != 2 {
            return Err(ParseError);
        }
        let file = File::from_str(s.substring_char(0, 1));
        let rank = Rank::from_str(s.substring_char(1, 2));
        match (file, rank) {
            (Ok(file), Ok(rank)) => Ok(Square::new(file, rank)),
            _ => Err(ParseError),
        }
    }

    /// A text parses to a square exactly when it is that square's text:
    /// parsing inverts formatting, and formatting inverts parsing.
    pub proof fn lemma_round_trip(self, s: Seq<char>)
        ensures
            Square::parse(self.text()) == Ok::<Square, ParseError>(self),
            Square::parse(s) == Ok::<Square, ParseError>(self) <==> s == self.text(),
    {
        let t = self.text();
        self.file.lemma_round_trip(t.subrange(0, 1));
        self.rank.lemma_round_trip(t.subrange(1, 2));
        if Square::parse(s) == Ok::<Square, ParseError>(self) {
            self.file.lemma_round_trip(s.subrange(0, 1));
            self.rank.lemma_round_trip(s.subrange(1, 2));
            assert(s =~= s.subrange(0, 1) + s.subrange(1, 2));
        }
    }

    /// A text whose length is not two is no square.
    pub proof fn lemma_length(s: Seq<char>)
        requires
            s.len() != 2,
        ensures
            Square::parse(s) is Err,
    {
    }
}

impl core::str::FromStr for Square {
    type Err = ParseError;

    fn from_str(s: &str) -> (r: Result<Self, Self::Err>)
        ensures
            r == Square::parse(s@),
    {
        Square::from_str(s)
    }
}

} // verus!
