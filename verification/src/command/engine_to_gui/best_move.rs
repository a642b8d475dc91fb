use crate::chess::Move;
use crate::text::{lemma_tokens_after_word, tokens};
use vstd::prelude::*;
use vstd::string::*;

verus! {

/// The engine has stopped searching and found the given move best in this position.
#[derive(Debug, Clone, Copy, PartialEq, Eq)]
pub struct BestMoveCommand {
    /// The best move in this position, according to the engine.
    pub best_move: Move,
    /// If given, the engine would like to ponder on this move.
    ///
    /// The engine must not start pondering automatically.
    pub ponder: Option<Move>,
}

impl BestMoveCommand {
    /// The text of the command: the keyword `bestmove` and the best move,
    /// then, if there is a move to ponder on, the keyword `ponder` and that
    /// move.
    pub open spec fn text(self) -> Seq<char> {
        "bestmove "@ + self.best_move.text() + match self.ponder {
            Some(ponder) => " ponder "@ + ponder.text(),
            None => Seq::empty(),
        }
    }

    /// Create a new best move command with the given best move.
    pub fn new(best_move: Move) -> (command: Self)
        ensures
            command == (BestMoveCommand { best_move, ponder: None }),
    {
        Self { best_move, ponder: None }
    }

    /// Create a new best move command with a suggestion to ponder on the given move.
    pub fn new_with_ponder(best_move: Move, ponder: Move) -> (command: Self)
        ensures
            command == (BestMoveCommand { best_move, ponder: Some(ponder) }),
    {
        Self { best_move, ponder: Some(ponder) }
    }

    /// The line of the command is named `bestmove`: that is its first token.
    pub proof fn lemma_keyword(self)
        ensures
            tokens(self.text()).len() > 0,
            tokens(self.text())[0] == "bestmove"@,
    {
        reveal_strlit("bestmove");
        reveal_strlit("bestmove ");
        reveal_strlit(" ");
        let rest = " "@ + self.best_move.text() + match self.ponder {
            Some(ponder) => " ponder "@ + ponder.text(),
            None => Seq::empty(),
        };
        assert(self.text() == "bestmove"@ + rest);
        lemma_tokens_after_word("bestmove"@, rest);
    }

    /// Formats the command as a protocol line.
    pub fn to_string(&self) -> (s: String)
        ensures
            s@ == self.text(),
    {
        let mut s = String::from_str("bestmove ");
        self.best_move.write_to(&mut s);
        if let Some(ponder) = &self.ponder {
            s.append(" ponder ");
            ponder.write_to(&mut s);
        }
        s
    }
}

} // verus!
