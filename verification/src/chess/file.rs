use super::ParseError;
use vstd::prelude::*;
use vstd::string::*;

verus! {

/// A file of the board, denoted from a to h.
#[derive(Debug, Clone, Copy, PartialEq, Eq, Structural)]
pub enum File {
    /// The first file of the board, denoted `a`.
    A,
    /// The second file of the board, denoted `b`.
    B,
    /// The third file of the board, denoted `c`.
    C,
    /// The forth file of the board, denoted `d`.
    D,
    /// The fifth file of the board, denoted `e`.
    E,
    /// The sixth file of the board, denoted `f`.
    F,
    /// The seventh file of the board, denoted `g`.
    G,
    /// The eigth file of the board, denoted `h`.
    H,
}

impl File {
    /// The lower-case letter that denotes the file.
    pub open spec fn letter(self) -> char {
        match self {
            File::A => 'a',
            File::B => 'b',
            File::C => 'c',
            File::D => 'd',
            File::E => 'e',
            File::F => 'f',
            File::G => 'g',
            File::H => 'h',
        }
    }

    /// The text of the file: its letter alone.
    pub open spec fn text(self) -> Seq<char> {
        seq![self.letter()]
    }

    /// The file that a character denotes, if any.
    pub open spec fn of_letter(c: char) -> Option<File> {
        if c == 'a' {
            Some(File::A)
        } else if c == 'b' {
            Some(File::B)
        } else if c == 'c' {
            Some(File::C)
        } else if c == 'd' {
            Some(File::D)
        } else if c == 'e' {
            Some(File::E)
        } else if c == 'f' {
            Some(File::F)
        } else if c == 'g' {
            Some(File::G)
        } else if c == 'h' {
            Some(File::H)
        } else {
            None
        }
    }

    /// What a text parses to: the file whose letter is its only character.
    pub open spec fn parse(s: Seq<char>) -> Result<File, ParseError> {
        if s.len() == 1 && Self::of_letter(s[0]) is Some {
            Ok(Self::of_letter(s[0])->0)
        } else {
            Err(ParseError)
        }
    }

    /// The text of the file as a string slice.
    pub fn as_str(&self) -> (s: &'static str)
        ensures
            s@ == self.text(),
    {
        proof {
            reveal_strlit("a");
            reveal_strlit("b");
            reveal_strlit("c");
            reveal_strlit("d");
            reveal_strlit("e");
            reveal_strlit("f");
            reveal_strlit("g");
            reveal_strlit("h");
        }
        let s = match self {
            File::A => "a",
            File::B => "b",
            File::C => "c",
            File::D => "d",
            File::E => "e",
            File::F => "f",
            File::G => "g",
            File::H => "h",
        };
        s
    }

    /// Formats the file as its letter.
    pub fn to_string(&self) -> (s: String)
        ensures
            s@ == self.text(),
    {
        String::from_str(self.as_str())
    }

    /// Parses a file: exactly one lower-case letter from `a` to `h`.
    pub fn from_str(s: &str) -> (r: Result<File, ParseError>)
        ensures
            r == File::parse(s@),
    {
        if s.unicode_len() != 1 {
            return Err(ParseError);
        }
        match s.get_char(0) {
            'a' => Ok(File::A),
            'b' => Ok(File::B),
            'c' => Ok(File::C),
            'd' => Ok(File::D),
            'e' => Ok(File::E),
            'f' => Ok(File::F),
            'g' => Ok(File::G),
            'h' => Ok(File::H),
            _ => Err(ParseError),
        }
    }

    /// A text parses to a file exactly when it is that file's text: parsing
    /// inverts formatting, and formatting inverts parsing.
    pub proof fn lemma_round_trip(self, s: Seq<char>)
        ensures
            File::parse(self.text()) == Ok::<File, ParseError>(self),
            File::parse(s) == Ok::<File, ParseError>(self) <==> s == self.text(),
    {
        if File::parse(s) == Ok::<File, ParseError>(self) {
            assert(s =~= self.text());
        }
    }
}

impl core::str::FromStr for File {
    type Err = ParseError;

    fn from_str(s: &str) -> (r: Result<Self, Self::Err>)
        ensures
            r == File::parse(s@),
    {
        File::from_str(s)
    }
}

} // verus!
