use crate::text::{decimal, push_decimal, push_signed_decimal, signed_decimal};
use vstd::prelude::*;
use vstd::string::*;

verus! {

/// The current (estimated) evaluation of the game.
#[derive(Debug, Clone, Copy, PartialEq, Eq, Structural)]
pub enum Evaluation {
    /// The current player can give checkmate in the given number of moves.
    ///
    /// Note that the number represents moves, not plies.
    PlayerCheckmate(u8),
    /// The opponent can give checkmate in the given number of moves.
    ///
    /// Note that the number represents moves, not plies.
    OpponentCheckmate(u8),
    /// The evaluation of the current position in centipawns.
    ///
    /// A positive value represents an advantage for the current player,
    /// a negative value represents an advantage for the opponent.
    Centipawns(i32),
}

impl Evaluation {
    /// The text of the evaluation: `mate N` for a mate by the player,
    /// `mate -N` for a mate by the opponent, `cp N` for centipawns, where `N`
    /// is a decimal numeral and that of negative centipawns has a minus sign.
    pub open spec fn text(self) -> Seq<char> {
        match self {
            Evaluation::PlayerCheckmate(moves) => "mate "@ + decimal(moves as nat),
            Evaluation::OpponentCheckmate(moves) => "mate -"@ + decimal(moves as nat),
            Evaluation::Centipawns(cp) => "cp "@ + signed_decimal(cp as int),
        }
    }

    /// Appends the text of the evaluation to `out`.
    pub(crate) fn write_to(&self, out: &mut String)
        ensures
            final(out)@ == old(out)@ + self.text(),
    {
        match self {
            Evaluation::PlayerCheckmate(moves) => {
                out.append("mate ");
                push_decimal(out, *moves as u128);
            },
            Evaluation::OpponentCheckmate(moves) => {
                out.append("mate -");
                push_decimal(out, *moves as u128);
            },
            Evaluation::Centipawns(cp) => {
                out.append("cp ");
                push_signed_decimal(out, *cp as i64);
            },
        }
    }

    /// Formats the evaluation.
    pub fn to_string(&self) -> (s: String)
        ensures
            s@ == self.text(),
    {
        let mut s = String::new();
        self.write_to(&mut s);
        s
    }
}

/// The current game score.
#[derive(Debug, Clone, Copy, PartialEq, Eq)]
pub struct Score {
    /// The evaluation of the position.
    eval: Evaluation,
    /// Indicates whether the score is just a lower bound.
    is_lower_bound: bool,
    /// Indicates whether the score is just an upper bound.
    is_upper_bound: bool,
}

impl Score {
    /// The evaluation of the position.
    pub closed spec fn eval(self) -> Evaluation {
        self.eval
    }

    /// Whether the score is just a lower bound.
    pub closed spec fn is_lower_bound(self) -> bool {
        self.is_lower_bound
    }

    /// Whether the score is just an upper bound.
    pub closed spec fn is_upper_bound(self) -> bool {
        self.is_upper_bound
    }

    /// A score is at most one kind of bound.
    #[verifier::type_invariant]
    closed spec fn one_bound_at_most(self) -> bool {
        !(self.is_lower_bound && self.is_upper_bound)
    }

    /// The text of the score: the keyword `score` and the evaluation, then
    /// ` lowerbound` if the score is a lower bound, then ` upperbound` if it
    /// is an upper bound.
    pub open spec fn text(self) -> Seq<char> {
        "score "@ + self.eval().text() + (if self.is_lower_bound() {
            " lowerbound"@
        } else {
            Seq::empty()
        }) + (if self.is_upper_bound() {
            " upperbound"@
        } else {
            Seq::empty()
        })
    }

    /// Create a new score that is not a lower nor upper bound.
    pub fn new(eval: Evaluation) -> (score: Self)
        ensures
            score.eval() == eval,
            !score.is_lower_bound(),
            !score.is_upper_bound(),
    {
        Self { eval, is_lower_bound: false, is_upper_bound: false }
    }

    /// Create a new score that is just a lower bound.
    pub fn lower_bound(eval: Evaluation) -> (score: Self)
        ensures
            score.eval() == eval,
            score.is_lower_bound(),
            !score.is_upper_bound(),
    {
        Self { eval, is_lower_bound: true, is_upper_bound: false }
    }

    /// Create a new score that is just an upper bound.
    pub fn uppper_bound(eval: Evaluation) -> (score: Self)
        ensures
            score.eval() == eval,
            !score.is_lower_bound(),
            score.is_upper_bound(),
    {
        Self { eval, is_lower_bound: false, is_upper_bound: true }
    }

    /// Appends the text of the score to `out`.
    pub(crate) fn write_to(&self, out: &mut String)
        ensures
            final(out)@ == old(out)@ + self.text(),
    {
        out.append("score ");
        self.eval.write_to(out);
        if self.is_lower_bound {
            out.append(" lowerbound");
        }
        if self.is_upper_bound {
            out.append(" upperbound");
        }
    }

    /// Formats the score. No score is both kinds of bound, so at most one
    /// of the two suffixes is written.
    pub fn to_string(&self) -> (s: String)
        ensures
            s@ == self.text(),
            !(self.is_lower_bound() && self.is_upper_bound()),
    {
        proof {
            use_type_invariant(self);
        }
        let mut s = String::new();
        self.write_to(&mut s);
        s
    }
}

} // verus!
