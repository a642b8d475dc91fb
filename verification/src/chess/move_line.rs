use super::{Move, ParseError};
use crate::text::{
    is_single_spaced, is_spacing, is_word, join_with_space, lemma_join_is_single_spaced,
    lemma_join_of_tokens, lemma_tokens_of_join, lemma_tokens_of_spaced, spaced,
    split_ascii_whitespace, texts, tokens,
};
use vstd::prelude::*;
use vstd::std_specs::convert::FromSpecImpl;
use vstd::string::*;

verus! {

/// A line of moves.
#[derive(Debug, Clone, PartialEq, Eq)]
pub struct MoveLine(pub Vec<Move>);

impl View for MoveLine {
    type V = Seq<Move>;

    open spec fn view(&self) -> Seq<Move> {
        self.0@
    }
}

/// The texts of the moves of a line, one for each move.
pub open spec fn move_texts(moves: Seq<Move>) -> Seq<Seq<char>> {
    Seq::new(moves.len(), |i: int| moves[i].text())
}

/// The text of a line of moves: the texts of its moves joined by single
/// spaces; the empty text for the empty line.
pub open spec fn line_text(moves: Seq<Move>) -> Seq<char> {
    join_with_space(move_texts(moves))
}

/// What a text parses to as a line of moves: it is split into its tokens,
/// and is the line of the moves they denote if each of them is a move;
/// otherwise it is an error. A text without tokens is the empty line.
pub open spec fn parse_line(s: Seq<char>) -> Result<Seq<Move>, ParseError> {
    let words = tokens(s);
    if forall|i: int| 0 <= i < words.len() ==> Move::parse(#[trigger] words[i]) is Ok {
        Ok(Seq::new(words.len(), |i: int| Move::parse(words[i])->Ok_0))
    } else {
        Err(ParseError)
    }
}

impl MoveLine {
    /// Determines if there are any moves in this line.
    pub fn is_empty(&self) -> (empty: bool)
        ensures
            empty == (self@.len() == 0),
    {
        self.0.len() == 0
    }

    /// The number of moves in this line.
    pub fn len(&self) -> (len: usize)
        ensures
            len == self@.len(),
    {
        self.0.len()
    }

    /// Add a move to the end of the line.
    pub fn push(&mut self, mv: Move)
        ensures
            final(self)@ == old(self)@.push(mv),
    {
        self.0.push(mv)
    }

    /// Appends the text of the line to `out`.
    pub(crate) fn write_to(&self, out: &mut String)
        ensures
            final(out)@ == old(out)@ + line_text(self@),
    {
        let ghost words = move_texts(self@);
        let n: usize = self.0.len();
        let mut i: usize = 0;
        assert(words.skip(0) == words);
        while i < n
            invariant
                i <= n,
                n == self@.len(),
                words == move_texts(self@),
                old(out)@ + join_with_space(words) == out@ + (if 0 < i < n {
                    seq![' ']
                } else {
                    Seq::empty()
                }) + join_with_space(words.skip(i as int)),
            decreases n - i,
        {
            if i > 0 {
                proof {
                    reveal_strlit(" ");
                }
                out.append(" ");
            }
            self.0[i].write_to(out);
            assert(words.skip(i as int).drop_first() == words.skip(i + 1));
            i += 1;
        }
    }

    /// Formats the line: its moves, separated by single spaces.
    pub fn to_string(&self) -> (s: String)
        ensures
            s@ == line_text(self@),
    {
        let mut s = String::new();
        self.write_to(&mut s);
        s
    }

    /// Parses a line of moves separated by ASCII whitespace. The first token
    /// that is no move fails the whole line; a text without tokens is the
    /// empty line.
    pub fn from_str(s: &str) -> (r: Result<MoveLine, ParseError>)
        ensures
            match r {
                Ok(line) => parse_line(s@) == Ok::<Seq<Move>, ParseError>(line@),
                Err(_) => parse_line(s@) is Err,
            },
    {
        let words = split_ascii_whitespace(s);
        let mut moves: Vec<Move> = Vec::new();
        let mut i: usize = 0;
        while i < words.len()
            invariant
                i <= words.len(),
                moves@.len() == i,
                texts(words@) == tokens(s@),
                forall|k: int|
                    0 <= k < i ==> Move::parse(#[trigger] tokens(s@)[k]) == Ok::<Move, ParseError>(
                        moves@[k],
                    ),
            decreases words.len() - i,
        {
            assert(texts(words@)[i as int] == words@[i as int]@);
            match Move::from_str(words[i]) {
                Ok(mv) => moves.push(mv),
                Err(e) => {
                    return Err(e);
                },
            }
            i += 1;
        }
        assert(moves@ =~= parse_line(s@)->Ok_0);
        Ok(MoveLine(moves))
    }
}

/// Parsing inverts formatting: the text of a line parses to that line. The
/// text is single-spaced, whatever the line.
pub proof fn lemma_line_round_trip(moves: Seq<Move>)
    ensures
        parse_line(line_text(moves)) == Ok::<Seq<Move>, ParseError>(moves),
        is_single_spaced(line_text(moves)),
{
    let words = move_texts(moves);
    assert forall|i: int| 0 <= i < words.len() implies is_word(#[trigger] words[i]) by {
        moves[i].lemma_text_is_word();
    }
    lemma_tokens_of_join(words);
    lemma_join_is_single_spaced(words);
    assert forall|i: int| 0 <= i < words.len() implies Move::parse(#[trigger] words[i]) == Ok::<
        Move,
        ParseError,
    >(moves[i]) by {
        moves[i].lemma_round_trip(words[i]);
    }
    assert(parse_line(line_text(moves))->Ok_0 =~= moves);
}

/// Any run of whitespace may separate the moves of a line, and any
/// whitespace may surround them: the text still parses to the same line.
pub proof fn lemma_line_any_spacing(moves: Seq<Move>, gaps: Seq<Seq<char>>)
    requires
        is_spacing(move_texts(moves), gaps),
    ensures
        parse_line(spaced(move_texts(moves), gaps)) == Ok::<Seq<Move>, ParseError>(moves),
{
    let words = move_texts(moves);
    assert forall|i: int| 0 <= i < words.len() implies is_word(#[trigger] words[i]) by {
        moves[i].lemma_text_is_word();
    }
    lemma_tokens_of_spaced(words, gaps);
    assert forall|i: int| 0 <= i < words.len() implies Move::parse(#[trigger] words[i]) == Ok::<
        Move,
        ParseError,
    >(moves[i]) by {
        moves[i].lemma_round_trip(words[i]);
    }
    assert(parse_line(spaced(words, gaps))->Ok_0 =~= moves);
}

/// Formatting inverts parsing on single-spaced text, and on no other: a
/// line parsed from a text formats back to that text exactly when the text
/// is single-spaced.
pub proof fn lemma_line_text_of_parsed(s: Seq<char>, moves: Seq<Move>)
    requires
        parse_line(s) == Ok::<Seq<Move>, ParseError>(moves),
    ensures
        line_text(moves) == s <==> is_single_spaced(s),
{
    let words = tokens(s);
    assert forall|i: int| 0 <= i < words.len() implies move_texts(moves)[i] == words[i] by {
        moves[i].lemma_round_trip(words[i]);
    }
    assert(move_texts(moves) =~= words);
    if is_single_spaced(s) {
        lemma_join_of_tokens(s);
    }
    lemma_line_round_trip(moves);
}

impl From<Vec<Move>> for MoveLine {
    /// The line of the given moves, in their order.
    fn from(moves: Vec<Move>) -> (line: Self) {
        MoveLine(moves)
    }
}

impl FromSpecImpl<Vec<Move>> for MoveLine {
    open spec fn obeys_from_spec() -> bool {
        true
    }

    open spec fn from_spec(moves: Vec<Move>) -> Self {
        MoveLine(moves)
    }
}

impl From<MoveLine> for Vec<Move> {
    /// The moves of the line, in their order.
    fn from(line: MoveLine) -> (moves: Self) {
        line.0
    }
}

impl FromSpecImpl<MoveLine> for Vec<Move> {
    open spec fn obeys_from_spec() -> bool {
        true
    }

    open spec fn from_spec(line: MoveLine) -> Self {
        line.0
    }
}

impl core::str::FromStr for MoveLine {
    type Err = ParseError;

    fn from_str(s: &str) -> (r: Result<Self, Self::Err>)
        ensures
            match r {
                Ok(line) => parse_line(s@) == Ok::<Seq<Move>, ParseError>(line@),
                Err(_) => parse_line(s@) is Err,
            },
    {
        MoveLine::from_str(s)
    }
}

} // verus!
