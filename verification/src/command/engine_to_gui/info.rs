use crate::assumed::duration_millis;
use crate::chess::{line_text, Move, MoveLine, Score};
use crate::convert::converted;
use crate::text::{
    decimal, is_tail, is_word, lemma_tail_of_tails, lemma_tokens_after_word, push_decimal, tokens,
};
use core::time::Duration;
use vstd::prelude::*;
use vstd::string::*;

verus! {

/// A command sending information from the engine to the GUI.
#[derive(Debug, Clone, PartialEq, Eq)]
pub struct InfoCommand {
    /// Search depth in plies.
    depth_plies: Option<usize>,
    /// Selective search depth in plies.
    ///
    /// If the engine sends `seldepth` there must also be a `depth` present in the same string.
    sel_depth_plies: Option<usize>,
    /// The score from the engine's point of view.
    score: Option<Score>,
    /// The number of nodes that the engine searched.
    node_count: Option<usize>,
    /// The number of nodes that the engine searched per second.
    nodes_per_second: Option<usize>,
    /// The number of positions found in the endgame table bases.
    endgame_tb_hits: Option<usize>,
    /// The number of positions found in the shredder endgame databases.
    shredder_tb_hits: Option<usize>,
    /// The time searched.
    time: Option<Duration>,
    /// The best line found.
    ///
    /// The first number represents the k-th best line.
    pv: Option<(usize, MoveLine)>,
    /// The CPU load of the engine in permill.
    cpu_load_permill: Option<usize>,
    /// The hash table fill in permill.
    hash_full_permill: Option<usize>,
    /// The currently searched move.
    curr_move: Option<Move>,
    /// The number of the currently searched move.
    ///
    /// Should be `1` for the first move, not `0`.
    curr_move_number: Option<usize>,
    /// The given move is refuted by the given line.
    ///
    /// The engine should only send this if the option `UCI_ShowRefutations` is set to `true`.
    refutation: Option<(Move, MoveLine)>,
    /// The line the engine is currently calculating.
    ///
    /// The first paramater represents the CPU number.
    ///
    /// The engine should only send this if the option `UCI_ShowCurrLine` is set to `true`.
    curr_line: Option<(usize, MoveLine)>,
    /// Any string string which will be displayed by the engine,
    string: Option<String>,
}

/// What an info command holds: each field is unset or has a value.
pub struct InfoView {
    /// Search depth in plies.
    pub depth_plies: Option<usize>,
    /// Selective search depth in plies.
    pub sel_depth_plies: Option<usize>,
    /// The score from the engine's point of view.
    pub score: Option<Score>,
    /// The number of nodes that the engine searched.
    pub node_count: Option<usize>,
    /// The number of nodes that the engine searched per second.
    pub nodes_per_second: Option<usize>,
    /// The number of positions found in the endgame table bases.
    pub endgame_tb_hits: Option<usize>,
    /// The number of positions found in the shredder endgame databases.
    pub shredder_tb_hits: Option<usize>,
    /// The time searched.
    pub time: Option<Duration>,
    /// The k-th best line found: `k`, then the line.
    pub pv: Option<(usize, Seq<Move>)>,
    /// The CPU load of the engine in permill.
    pub cpu_load_permill: Option<usize>,
    /// The hash table fill in permill.
    pub hash_full_permill: Option<usize>,
    /// The currently searched move.
    pub curr_move: Option<Move>,
    /// The number of the currently searched move.
    pub curr_move_number: Option<usize>,
    /// A move and the line that refutes it.
    pub refutation: Option<(Move, Seq<Move>)>,
    /// The line that a CPU is calculating: the CPU's number, then the line.
    pub curr_line: Option<(usize, Seq<Move>)>,
    /// Free text.
    pub string: Option<Seq<char>>,
}

/// One field of an info command together with a value for it: what one
/// setter call hands over.
pub enum InfoField {
    /// Search depth in plies.
    DepthPlies(usize),
    /// Selective search depth in plies.
    SelDepthPlies(usize),
    /// The score from the engine's point of view.
    Score(Score),
    /// The number of nodes that the engine searched.
    NodeCount(usize),
    /// The number of nodes that the engine searched per second.
    NodesPerSecond(usize),
    /// The number of positions found in the endgame table bases.
    EndgameTbHits(usize),
    /// The number of positions found in the shredder endgame databases.
    ShredderTbHits(usize),
    /// The time searched.
    Time(Duration),
    /// The k-th best line found: `k`, then the line.
    Pv(usize, Seq<Move>),
    /// The CPU load of the engine in permill.
    CpuLoadPermill(usize),
    /// The hash table fill in permill.
    HashFullPermill(usize),
    /// The currently searched move.
    CurrMove(Move),
    /// The number of the currently searched move.
    CurrMoveNumber(usize),
    /// A move and the line that refutes it.
    Refutation(Move, Seq<Move>),
    /// The line that a CPU is calculating: the CPU's number, then the line.
    CurrLine(usize, Seq<Move>),
    /// Free text.
    String(Seq<char>),
}

impl InfoField {
    /// Both are values for the same field.
    pub open spec fn same_field(self, other: InfoField) -> bool {
        match (self, other) {
            (InfoField::DepthPlies(_), InfoField::DepthPlies(_)) => true,
            (InfoField::SelDepthPlies(_), InfoField::SelDepthPlies(_)) => true,
            (InfoField::Score(_), InfoField::Score(_)) => true,
            (InfoField::NodeCount(_), InfoField::NodeCount(_)) => true,
            (InfoField::NodesPerSecond(_), InfoField::NodesPerSecond(_)) => true,
            (InfoField::EndgameTbHits(_), InfoField::EndgameTbHits(_)) => true,
            (InfoField::ShredderTbHits(_), InfoField::ShredderTbHits(_)) => true,
            (InfoField::Time(_), InfoField::Time(_)) => true,
            (InfoField::Pv(_, _), InfoField::Pv(_, _)) => true,
            (InfoField::CpuLoadPermill(_), InfoField::CpuLoadPermill(_)) => true,
            (InfoField::HashFullPermill(_), InfoField::HashFullPermill(_)) => true,
            (InfoField::CurrMove(_), InfoField::CurrMove(_)) => true,
            (InfoField::CurrMoveNumber(_), InfoField::CurrMoveNumber(_)) => true,
            (InfoField::Refutation(_, _), InfoField::Refutation(_, _)) => true,
            (InfoField::CurrLine(_, _), InfoField::CurrLine(_, _)) => true,
            (InfoField::String(_), InfoField::String(_)) => true,
            _ => false,
        }
    }
}

/// The text of a field that holds a number: the keyword, then the decimal
/// numeral; nothing if the field is unset.
pub open spec fn number_text(keyword: Seq<char>, value: Option<usize>) -> Seq<char> {
    match value {
        Some(number) => keyword + decimal(number as nat),
        None => Seq::empty(),
    }
}

/// The text of a field that holds a move: the keyword, then the move;
/// nothing if the field is unset.
pub open spec fn move_text(keyword: Seq<char>, value: Option<Move>) -> Seq<char> {
    match value {
        Some(mv) => keyword + mv.text(),
        None => Seq::empty(),
    }
}

/// The text of the score field: a space, then the score, which begins with
/// its own keyword `score`; nothing if the field is unset.
pub open spec fn score_text(value: Option<Score>) -> Seq<char> {
    match value {
        Some(score) => " "@ + score.text(),
        None => Seq::empty(),
    }
}

/// The text of the time field: the keyword `time`, then the whole
/// milliseconds of the duration; nothing if the field is unset.
pub open spec fn time_text(value: Option<Duration>) -> Seq<char> {
    match value {
        Some(time) => " time "@ + decimal(duration_millis(time) as nat),
        None => Seq::empty(),
    }
}

/// The text of the refutation field: the keyword `refutation` and the
/// refuted move, then, only if the refuting line is not empty, a space and
/// that line; nothing if the field is unset.
pub open spec fn refutation_text(value: Option<(Move, Seq<Move>)>) -> Seq<char> {
    match value {
        Some((mv, line)) => " refutation "@ + mv.text() + (if line.len() > 0 {
            " "@ + line_text(line)
        } else {
            Seq::empty()
        }),
        None => Seq::empty(),
    }
}

/// The text of the current-line field: the keyword `currline`, the number
/// of the CPU, a space and the line; nothing if the field is unset.
pub open spec fn curr_line_text(value: Option<(usize, Seq<Move>)>) -> Seq<char> {
    match value {
        Some((cpu, line)) => " currline "@ + decimal(cpu as nat) + " "@ + line_text(line),
        None => Seq::empty(),
    }
}

/// The text of the principal variation: the keyword `multipv` and the rank
/// of the line, then the keyword `pv` and the line, always together; nothing
/// if the field is unset.
pub open spec fn pv_text(value: Option<(usize, Seq<Move>)>) -> Seq<char> {
    match value {
        Some((kth_best, line)) => " multipv "@ + decimal(kth_best as nat) + " pv "@ + line_text(
            line,
        ),
        None => Seq::empty(),
    }
}

impl InfoView {
    /// The info command with every field unset.
    pub open spec fn empty() -> InfoView {
        InfoView {
            depth_plies: None,
            sel_depth_plies: None,
            score: None,
            node_count: None,
            nodes_per_second: None,
            endgame_tb_hits: None,
            shredder_tb_hits: None,
            time: None,
            pv: None,
            cpu_load_permill: None,
            hash_full_permill: None,
            curr_move: None,
            curr_move_number: None,
            refutation: None,
            curr_line: None,
            string: None,
        }
    }

    /// The info command after one field was set: that field holds the new
    /// value, every other field is as before.
    pub open spec fn set(self, field: InfoField) -> InfoView {
        match field {
            InfoField::DepthPlies(plies) => InfoView { depth_plies: Some(plies), ..self },
            InfoField::SelDepthPlies(plies) => InfoView { sel_depth_plies: Some(plies), ..self },
            InfoField::Score(score) => InfoView { score: Some(score), ..self },
            InfoField::NodeCount(count) => InfoView { node_count: Some(count), ..self },
            InfoField::NodesPerSecond(count) => InfoView { nodes_per_second: Some(count), ..self },
            InfoField::EndgameTbHits(hits) => InfoView { endgame_tb_hits: Some(hits), ..self },
            InfoField::ShredderTbHits(hits) => InfoView { shredder_tb_hits: Some(hits), ..self },
            InfoField::Time(time) => InfoView { time: Some(time), ..self },
            InfoField::Pv(kth_best, line) => InfoView { pv: Some((kth_best, line)), ..self },
            InfoField::CpuLoadPermill(load) => InfoView { cpu_load_permill: Some(load), ..self },
            InfoField::HashFullPermill(fill) => InfoView { hash_full_permill: Some(fill), ..self },
            InfoField::CurrMove(mv) => InfoView { curr_move: Some(mv), ..self },
            InfoField::CurrMoveNumber(number) => InfoView {
                curr_move_number: Some(number),
                ..self
            },
            InfoField::Refutation(mv, line) => InfoView { refutation: Some((mv, line)), ..self },
            InfoField::CurrLine(cpu, line) => InfoView { curr_line: Some((cpu, line)), ..self },
            InfoField::String(string) => InfoView { string: Some(string), ..self },
        }
    }

    /// The text of the command: the keyword `info`, then the fields that are
    /// set, each behind its own keyword, always in this order. A field that
    /// is unset leaves no trace, and the free-text field is never written.
    pub open spec fn text(self) -> Seq<char> {
        "info"@ + number_text(" depth "@, self.depth_plies) + number_text(
            " seldepth "@,
            self.sel_depth_plies,
        ) + score_text(self.score) + number_text(" nodes "@, self.node_count) + number_text(
            " nps "@,
            self.nodes_per_second,
        ) + number_text(" tbhits "@, self.endgame_tb_hits) + number_text(
            " sbhits "@,
            self.shredder_tb_hits,
        ) + time_text(self.time) + move_text(" currmove "@, self.curr_move) + number_text(
            " currmovenumber "@,
            self.curr_move_number,
        ) + number_text(" cpuload "@, self.cpu_load_permill) + number_text(
            " hashfull "@,
            self.hash_full_permill,
        ) + refutation_text(self.refutation) + curr_line_text(self.curr_line) + pv_text(self.pv)
    }

    /// The order of two setter calls does not matter unless they set the
    /// same field, and then the later call alone counts.
    pub proof fn lemma_set_order(self, first: InfoField, second: InfoField)
        ensures
            !first.same_field(second) ==> self.set(first).set(second) == self.set(second).set(
                first,
            ),
            first.same_field(second) ==> self.set(first).set(second) == self.set(second),
    {
    }

    /// With no field set, the text is the keyword `info` alone.
    pub proof fn lemma_bare_keyword()
        ensures
            InfoView::empty().text() == "info"@,
    {
    }

    /// Whatever is set, the line of the command is named `info`: that is
    /// its first token.
    pub proof fn lemma_keyword(self)
        ensures
            tokens(self.text()).len() > 0,
            tokens(self.text())[0] == "info"@,
    {
        let keyword = "info"@;
        let depth = number_text(" depth "@, self.depth_plies);
        let sel_depth = number_text(" seldepth "@, self.sel_depth_plies);
        let score = score_text(self.score);
        let nodes = number_text(" nodes "@, self.node_count);
        let nps = number_text(" nps "@, self.nodes_per_second);
        let tb_hits = number_text(" tbhits "@, self.endgame_tb_hits);
        let sb_hits = number_text(" sbhits "@, self.shredder_tb_hits);
        let time = time_text(self.time);
        let curr_move = move_text(" currmove "@, self.curr_move);
        let curr_move_number = number_text(" currmovenumber "@, self.curr_move_number);
        let cpu_load = number_text(" cpuload "@, self.cpu_load_permill);
        let hash_full = number_text(" hashfull "@, self.hash_full_permill);
        let refutation = refutation_text(self.refutation);
        let curr_line = curr_line_text(self.curr_line);
        let pv = pv_text(self.pv);
        lemma_fields_are_tails(self);

        let mut rest = depth;
        lemma_tail_of_tails(keyword, rest, sel_depth);
        rest = rest + sel_depth;
        lemma_tail_of_tails(keyword, rest, score);
        rest = rest + score;
        lemma_tail_of_tails(keyword, rest, nodes);
        rest = rest + nodes;
        lemma_tail_of_tails(keyword, rest, nps);
        rest = rest + nps;
        lemma_tail_of_tails(keyword, rest, tb_hits);
        rest = rest + tb_hits;
        lemma_tail_of_tails(keyword, rest, sb_hits);
        rest = rest + sb_hits;
        lemma_tail_of_tails(keyword, rest, time);
        rest = rest + time;
        lemma_tail_of_tails(keyword, rest, curr_move);
        rest = rest + curr_move;
        lemma_tail_of_tails(keyword, rest, curr_move_number);
        rest = rest + curr_move_number;
        lemma_tail_of_tails(keyword, rest, cpu_load);
        rest = rest + cpu_load;
        lemma_tail_of_tails(keyword, rest, hash_full);
        rest = rest + hash_full;
        lemma_tail_of_tails(keyword, rest, refutation);
        rest = rest + refutation;
        lemma_tail_of_tails(keyword, rest, curr_line);
        rest = rest + curr_line;
        lemma_tail_of_tails(keyword, rest, pv);
        rest = rest + pv;

        assert(is_word(keyword)) by {
            reveal_strlit("info");
        }
        lemma_tokens_after_word(keyword, rest);
    }
}

/// The text of each field is a tail: it is empty or begins with a space.
proof fn lemma_fields_are_tails(info: InfoView)
    ensures
        is_tail(number_text(" depth "@, info.depth_plies)),
        is_tail(number_text(" seldepth "@, info.sel_depth_plies)),
        is_tail(score_text(info.score)),
        is_tail(number_text(" nodes "@, info.node_count)),
        is_tail(number_text(" nps "@, info.nodes_per_second)),
        is_tail(number_text(" tbhits "@, info.endgame_tb_hits)),
        is_tail(number_text(" sbhits "@, info.shredder_tb_hits)),
        is_tail(time_text(info.time)),
        is_tail(move_text(" currmove "@, info.curr_move)),
        is_tail(number_text(" currmovenumber "@, info.curr_move_number)),
        is_tail(number_text(" cpuload "@, info.cpu_load_permill)),
        is_tail(number_text(" hashfull "@, info.hash_full_permill)),
        is_tail(refutation_text(info.refutation)),
        is_tail(curr_line_text(info.curr_line)),
        is_tail(pv_text(info.pv)),
{
    reveal_strlit(" ");
    reveal_strlit(" depth ");
    reveal_strlit(" seldepth ");
    reveal_strlit(" nodes ");
    reveal_strlit(" nps ");
    reveal_strlit(" tbhits ");
    reveal_strlit(" sbhits ");
    reveal_strlit(" time ");
    reveal_strlit(" currmove ");
    reveal_strlit(" currmovenumber ");
    reveal_strlit(" cpuload ");
    reveal_strlit(" hashfull ");
    reveal_strlit(" refutation ");
    reveal_strlit(" currline ");
    reveal_strlit(" multipv ");
}

/// An optional line with what it is labelled by, the line taken as the
/// sequence of its moves.
pub open spec fn labelled_line_view<Label>(value: Option<(Label, MoveLine)>) -> Option<
    (Label, Seq<Move>),
> {
    match value {
        Some((label, line)) => Some((label, line@)),
        None => None,
    }
}

impl View for InfoCommand {
    type V = InfoView;

    closed spec fn view(&self) -> InfoView {
        InfoView {
            depth_plies: self.depth_plies,
            sel_depth_plies: self.sel_depth_plies,
            score: self.score,
            node_count: self.node_count,
            nodes_per_second: self.nodes_per_second,
            endgame_tb_hits: self.endgame_tb_hits,
            shredder_tb_hits: self.shredder_tb_hits,
            time: self.time,
            pv: labelled_line_view(self.pv),
            cpu_load_permill: self.cpu_load_permill,
            hash_full_permill: self.hash_full_permill,
            curr_move: self.curr_move,
            curr_move_number: self.curr_move_number,
            refutation: labelled_line_view(self.refutation),
            curr_line: labelled_line_view(self.curr_line),
            string: match self.string {
                Some(string) => Some(string@),
                None => None,
            },
        }
    }
}

impl Default for InfoCommand {
    /// An info command with every field unset.
    fn default() -> (command: Self)
        ensures
            command@ == InfoView::empty(),
    {
        Self {
            depth_plies: None,
            sel_depth_plies: None,
            score: None,
            node_count: None,
            nodes_per_second: None,
            endgame_tb_hits: None,
            shredder_tb_hits: None,
            time: None,
            pv: None,
            cpu_load_permill: None,
            hash_full_permill: None,
            curr_move: None,
            curr_move_number: None,
            refutation: None,
            curr_line: None,
            string: None,
        }
    }
}

/// Appends the text of a field that holds a number.
fn write_number(out: &mut String, keyword: &str, value: Option<usize>)
    ensures
        final(out)@ == old(out)@ + number_text(keyword@, value),
{
    if let Some(number) = value {
        out.append(keyword);
        push_decimal(out, number as u128);
    }
}

/// Appends the text of a field that holds a move.
fn write_move(out: &mut String, keyword: &str, value: &Option<Move>)
    ensures
        final(out)@ == old(out)@ + move_text(keyword@, *value),
{
    if let Some(mv) = value {
        out.append(keyword);
        mv.write_to(out);
    }
}

/// Appends the text of the score field.
fn write_score(out: &mut String, value: &Option<Score>)
    ensures
        final(out)@ == old(out)@ + score_text(*value),
{
    if let Some(score) = value {
        out.append(" ");
        score.write_to(out);
    }
}

/// Appends the text of the time field.
fn write_time(out: &mut String, value: &Option<Duration>)
    ensures
        final(out)@ == old(out)@ + time_text(*value),
{
    if let Some(time) = value {
        out.append(" time ");
        push_decimal(out, time.as_millis());
    }
}

/// Appends the text of the refutation field.
fn write_refutation(out: &mut String, value: &Option<(Move, MoveLine)>)
    ensures
        final(out)@ == old(out)@ + refutation_text(labelled_line_view(*value)),
{
    if let Some((mv, refutation)) = value {
        out.append(" refutation ");
        mv.write_to(out);
        if !refutation.is_empty() {
            out.append(" ");
            refutation.write_to(out);
        }
    }
}

/// Appends the text of the current-line field.
fn write_curr_line(out: &mut String, value: &Option<(usize, MoveLine)>)
    ensures
        final(out)@ == old(out)@ + curr_line_text(labelled_line_view(*value)),
{
    if let Some((cpu, line)) = value {
        out.append(" currline ");
        push_decimal(out, *cpu as u128);
        out.append(" ");
        line.write_to(out);
    }
}

/// Appends the text of the principal variation.
fn write_pv(out: &mut String, value: &Option<(usize, MoveLine)>)
    ensures
        final(out)@ == old(out)@ + pv_text(labelled_line_view(*value)),
{
    if let Some((kth_best, line)) = value {
        out.append(" multipv ");
        push_decimal(out, *kth_best as u128);
        out.append(" pv ");
        line.write_to(out);
    }
}

impl InfoCommand {
    /// Create a new, empty info command.
    pub fn new() -> (command: Self)
        ensures
            command@ == InfoView::empty(),
    {
        Self::default()
    }

    /// Set the search depth (in plies).
    pub fn with_depth_plies(&mut self, depth_plies: usize) -> (ret: &mut Self)
        ensures
            ret@ == old(self)@.set(InfoField::DepthPlies(depth_plies)),
            *final(self) == *final(ret),
    {
        self.depth_plies = Some(depth_plies);
        self
    }

    /// Select the selective search depth (in plies).
    ///
    /// This should be set together with depth, which is left to the caller.
    pub fn with_sel_depth_plies(&mut self, sel_depth_plies: usize) -> (ret: &mut Self)
        ensures
            ret@ == old(self)@.set(InfoField::SelDepthPlies(sel_depth_plies)),
            *final(self) == *final(ret),
    {
        self.sel_depth_plies = Some(sel_depth_plies);
        self
    }

    /// Set the score that the engine estimates for the current position.
    pub fn with_score(&mut self, score: Score) -> (ret: &mut Self)
        ensures
            ret@ == old(self)@.set(InfoField::Score(score)),
            *final(self) == *final(ret),
    {
        self.score = Some(score);
        self
    }

    /// Set the number of nodes that the engine has searched.
    pub fn with_node_count(&mut self, node_count: usize) -> (ret: &mut Self)
        ensures
            ret@ == old(self)@.set(InfoField::NodeCount(node_count)),
            *final(self) == *final(ret),
    {
        self.node_count = Some(node_count);
        self
    }

    /// Set the number of nodes that the engine has searched per second.
    pub fn with_nodes_per_second(&mut self, nodes_per_second: usize) -> (ret: &mut Self)
        ensures
            ret@ == old(self)@.set(InfoField::NodesPerSecond(nodes_per_second)),
            *final(self) == *final(ret),
    {
        self.nodes_per_second = Some(nodes_per_second);
        self
    }

    /// Set the number of positions that were found in endgame table bases.
    pub fn with_endgame_tb_hits(&mut self, endgame_tb_hits: usize) -> (ret: &mut Self)
        ensures
            ret@ == old(self)@.set(InfoField::EndgameTbHits(endgame_tb_hits)),
            *final(self) == *final(ret),
    {
        self.endgame_tb_hits = Some(endgame_tb_hits);
        self
    }

    /// Set the number of positions that were found in the shredder endgame databases.
    pub fn with_shredder_tb_hits(&mut self, shredder_tb_hits: usize) -> (ret: &mut Self)
        ensures
            ret@ == old(self)@.set(InfoField::ShredderTbHits(shredder_tb_hits)),
            *final(self) == *final(ret),
    {
        self.shredder_tb_hits = Some(shredder_tb_hits);
        self
    }

    /// Set the time that the engine searched.
    ///
    /// Should be sent together with `pv`.
    pub fn with_time(&mut self, time: Duration) -> (ret: &mut Self)
        ensures
            ret@ == old(self)@.set(InfoField::Time(time)),
            *final(self) == *final(ret),
    {
        self.time = Some(time);
        self
    }

    /// Set the principal variation (PV).
    ///
    /// This represents the best line that the engine could find.
    ///
    /// If your engine supports multi-PV, use [`InfoCommand::with_multi_pv`] instead.
    pub fn with_pv<L>(&mut self, principal_variation: L) -> (ret: &mut Self) where
        L: Into<MoveLine>,

        ensures
            exists|line: MoveLine| #[trigger]
                converted(principal_variation, line) && ret@ == old(self)@.set(
                    InfoField::Pv(1, line@),
                ),
            *final(self) == *final(ret),
    {
        let line: MoveLine = principal_variation.into();
        assert(converted(principal_variation, line));
        self.pv = Some((1, line));
        self
    }

    /// Set the k-th best principal variation (PV).
    ///
    /// `k = 1` represents the best line, `k = 2` the second best, etc.
    pub fn with_multi_pv<L>(&mut self, kth_best: usize, principal_variation: L) -> (ret:
        &mut Self) where L: Into<MoveLine>
        ensures
            exists|line: MoveLine| #[trigger]
                converted(principal_variation, line) && ret@ == old(self)@.set(
                    InfoField::Pv(kth_best, line@),
                ),
            *final(self) == *final(ret),
    {
        let line: MoveLine = principal_variation.into();
        assert(converted(principal_variation, line));
        self.pv = Some((kth_best, line));
        self
    }

    /// Set the currently searched move.
    pub fn with_curr_move(&mut self, curr_move: Move) -> (ret: &mut Self)
        ensures
            ret@ == old(self)@.set(InfoField::CurrMove(curr_move)),
            *final(self) == *final(ret),
    {
        self.curr_move = Some(curr_move);
        self
    }

    /// Set the number of the currently searched move.
    ///
    /// The first move should be `1`, not `0`.
    pub fn with_curr_move_number(&mut self, curr_move_number: usize) -> (ret: &mut Self)
        ensures
            ret@ == old(self)@.set(InfoField::CurrMoveNumber(curr_move_number)),
            *final(self) == *final(ret),
    {
        self.curr_move_number = Some(curr_move_number);
        self
    }

    /// Set the engine's CPU load, in permill.
    pub fn with_cpu_load_permill(&mut self, cpu_load_permill: usize) -> (ret: &mut Self)
        ensures
            ret@ == old(self)@.set(InfoField::CpuLoadPermill(cpu_load_permill)),
            *final(self) == *final(ret),
    {
        self.cpu_load_permill = Some(cpu_load_permill);
        self
    }

    /// Set the load of the hash table in permill.
    pub fn with_hash_full_permill(&mut self, hash_full_permill: usize) -> (ret: &mut Self)
        ensures
            ret@ == old(self)@.set(InfoField::HashFullPermill(hash_full_permill)),
            *final(self) == *final(ret),
    {
        self.hash_full_permill = Some(hash_full_permill);
        self
    }

    /// The given move is refuted by the given line.
    ///
    /// The engine should only send this if the option `UCI_ShowRefutations` is set to `true`.
    pub fn with_refutation<L>(&mut self, mv: Move, refutation: L) -> (ret: &mut Self) where
        L: Into<MoveLine>,

        ensures
            exists|line: MoveLine| #[trigger]
                converted(refutation, line) && ret@ == old(self)@.set(
                    InfoField::Refutation(mv, line@),
                ),
            *final(self) == *final(ret),
    {
        let line: MoveLine = refutation.into();
        assert(converted(refutation, line));
        self.refutation = Some((mv, line));
        self
    }

    /// Set the currently calculated line for the first CPU.
    ///
    /// The engine should only send this if the option `UCI_ShowCurrLine` is set to `true`.
    pub fn with_curr_line<L>(&mut self, line: L) -> (ret: &mut Self) where L: Into<MoveLine>
        ensures
            exists|moves: MoveLine| #[trigger]
                converted(line, moves) && ret@ == old(self)@.set(InfoField::CurrLine(1, moves@)),
            *final(self) == *final(ret),
    {
        let moves: MoveLine = line.into();
        assert(converted(line, moves));
        self.curr_line = Some((1, moves));
        self
    }

    /// Set the currently calculated line for a given CPU.
    ///
    /// The engine should only send this if the option `UCI_ShowCurrLine` is set to `true`.
    pub fn with_curr_line_for_cpu<L>(&mut self, cpu_num: usize, line: L) -> (ret: &mut Self) where
        L: Into<MoveLine>,

        ensures
            exists|moves: MoveLine| #[trigger]
                converted(line, moves) && ret@ == old(self)@.set(
                    InfoField::CurrLine(cpu_num, moves@),
                ),
            *final(self) == *final(ret),
    {
        let moves: MoveLine = line.into();
        assert(converted(line, moves));
        self.curr_line = Some((cpu_num, moves));
        self
    }

    /// Send any text as info.
    pub fn with_string<S>(&mut self, string: S) -> (ret: &mut Self) where S: Into<String>
        ensures
            exists|text: String| #[trigger]
                converted(string, text) && ret@ == old(self)@.set(InfoField::String(text@)),
            *final(self) == *final(ret),
    {
        let text: String = string.into();
        assert(converted(string, text));
        self.string = Some(text);
        self
    }

    /// Formats the command as a protocol line: the keyword `info`, then
    /// every field that is set, in the fixed order of the protocol whatever
    /// the order in which the fields were set.
    pub fn to_string(&self) -> (s: String)
        ensures
            s@ == self@.text(),
    {
        let mut s = String::from_str("info");
        write_number(&mut s, " depth ", self.depth_plies);
        write_number(&mut s, " seldepth ", self.sel_depth_plies);
        write_score(&mut s, &self.score);
        write_number(&mut s, " nodes ", self.node_count);
        write_number(&mut s, " nps ", self.nodes_per_second);
        write_number(&mut s, " tbhits ", self.endgame_tb_hits);
        write_number(&mut s, " sbhits ", self.shredder_tb_hits);
        write_time(&mut s, &self.time);
        write_move(&mut s, " currmove ", &self.curr_move);
        write_number(&mut s, " currmovenumber ", self.curr_move_number);
        write_number(&mut s, " cpuload ", self.cpu_load_permill);
        write_number(&mut s, " hashfull ", self.hash_full_permill);
        write_refutation(&mut s, &self.refutation);
        write_curr_line(&mut s, &self.curr_line);
        write_pv(&mut s, &self.pv);
        s
    }
}

} // verus!
