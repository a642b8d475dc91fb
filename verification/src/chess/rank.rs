use super::ParseError;
use vstd::prelude::*;
use vstd::string::*;

verus! {

/// A rank of the board, denoted from 1 to 8.
#[derive(Debug, Clone, Copy, PartialEq, Eq, Structural)]
pub enum Rank {
    /// The first rank of the board, denoted `1`.
    One,
    /// The second rank of the board, denoted `2`.
    Two,
    /// The third rank of the board, denoted `3`.
    Three,
    /// The fourth rank of the board, denoted `4`.
    Four,
    /// The fifth rank of the board, denoted `5`.
    Five,
    /// The sixth rank of the board, denoted `6`.
    Six,
    /// The seventh rank of the board, denoted `7`.
    Seven,
    /// The eighth rank of the board, denoted `8`.
    Eight,
}

impl Rank {
    /// The digit that denotes the rank.
    pub open spec fn digit(self) -> char {
        match self {
            Rank::One => '1',
            Rank::Two => '2',
            Rank::Three => '3',
            Rank::Four => '4',
            Rank::Five => '5',
            Rank::Six => '6',
            Rank::Seven => '7',
            Rank::Eight => '8',
        }
    }

    /// The text of the rank: its digit alone.
    pub open spec fn text(self) -> Seq<char> {
        seq![self.digit()]
    }

    /// The rank that a character denotes, if any.
    pub open spec fn of_digit(c: char) -> Option<Rank> {
        if c == '1' {
            Some(Rank::One)
        } else if c == '2' {
            Some(Rank::Two)
        } else if c == '3' {
            Some(Rank::Three)
        } else if c == '4' {
            Some(Rank::Four)
        } else if c == '5' {
            Some(Rank::Five)
        } else if c == '6' {
            Some(Rank::Six)
        } else if c == '7' {
            Some(Rank::Seven)
        } else if c == '8' {
            Some(Rank::Eight)
        } else {
            None
        }
    }

    /// What a text parses to: the rank whose digit is its only character.
    pub open spec fn parse(s: Seq<char>) -> Result<Rank, ParseError> {
        if s.len() == 1 && Self::of_digit(s[0]) is Some {
            Ok(Self::of_digit(s[0])->0)
        } else {
            Err(ParseError)
        }
    }

    /// The text of the rank as a string slice.
    pub fn as_str(&self) -> (s: &'static str)
        ensures
            s@ == self.text(),
    {
        proof {
            reveal_strlit("1");
            reveal_strlit("2");
            reveal_strlit("3");
            reveal_strlit("4");
            reveal_strlit("5");
            reveal_strlit("6");
            reveal_strlit("7");
            reveal_strlit("8");
        }
        let s = match self {
            Rank::One => "1",
            Rank::Two => "2",
            Rank::Three => "3",
            Rank::Four => "4",
            Rank::Five => "5",
            Rank::Six => "6",
            Rank::Seven => "7",
            Rank::Eight => "8",
        };
        s
    }

    /// Formats the rank as its digit.
    pub fn to_string(&self) -> (s: String)
        ensures
            s@ == self.text(),
    {
        String::from_str(self.as_str())
    }

    /// Parses a rank: exactly one digit from `1` to `8`.
    pub fn from_str(s: &str) -> (r: Result<Rank, ParseError>)
        ensures
            r == Rank::parse(s@),
    {
        if s.unicode_len() != 1 {
            return Err(ParseError);
        }
        match s.get_char(0) {
            '1' => Ok(Rank::One),
            '2' => Ok(Rank::Two),
            '3' => Ok(Rank::Three),
            '4' => Ok(Rank::Four),
            '5' => Ok(Rank::Five),
            '6' => Ok(Rank::Six),
            '7' => Ok(Rank::Seven),
            '8' => Ok(Rank::Eight),
            _ => Err(ParseError),
        }
    }

    /// A text parses to a rank exactly when it is that rank's text: parsing
    /// inverts formatting, and formatting inverts parsing.
    pub proof fn lemma_round_trip(self, s: Seq<char>)
        ensures
            Rank::parse(self.text()) == Ok::<Rank, ParseError>(self),
            Rank::parse(s) == Ok::<Rank, ParseError>(self) <==> s == self.text(),
    {
        if Rank::parse(s) == Ok::<Rank, ParseError>(self) {
            assert(s =~= self.text());
        }
    }
}

impl core::str::FromStr for Rank {
    type Err = ParseError;

    fn from_str(s: &str) -> (r: Result<Self, Self::Err>)
        ensures
            r == Rank::parse(s@),
    {
        Rank::from_str(s)
    }
}

} // verus!
