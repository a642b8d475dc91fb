//! Commands sent from the engine to the GUI.

use crate::command::RawCommand;
use crate::text::{lemma_tokens_after_word, tokens};
use vstd::prelude::*;
use vstd::string::*;

mod best_move;
mod copy_protection;
mod id;
mod info;
mod option;
mod registration;

pub use self::best_move::BestMoveCommand;
pub use self::copy_protection::CopyProtectionCommand;
pub use self::id::IdCommand;
pub use self::info::{
    curr_line_text, labelled_line_view, move_text, number_text, pv_text, refutation_text,
    score_text, time_text, InfoCommand, InfoField, InfoView,
};
pub use self::option::{
    CheckOption, ComboOption, EngineOption, OptionType, SpinOption, StringOption,
};
pub use self::registration::RegistrationCommand;

verus! {

/// A command sent from the engine to the GUI.
#[derive(Debug, Clone, PartialEq, Eq)]
pub enum EngineToGuiCommand {
    /// Identify the engine to the GUI.
    Id(IdCommand),
    /// Must be sent after the `id` and optional options to tell the GUI that the engine has sent all infos and is ready in UCI mode.
    UciOk,
    /// This must be sent when the engine has received an `isready` command and has processed all input and is ready to accept new commands now.
    ReadyOk,
    /// the engine has stopped searching and found the move `<move>` best in this position.
    BestMove(BestMoveCommand),
    /// This is needed for copyprotected engines.
    ///
    /// After the `uciok` command the engine can tell the GUI, that it will check the copy protection now.
    /// This is done by `copyprotection checking`.
    ///
    ///  If the check is ok the engine should send `copyprotection ok`, otherwise `copyprotection error`.
    /// If there is an error the engine should not function properly but should not quit alone.
    /// If the engine reports copyprotection error the GUI should not use this engine and display an error message instead!
    CopyProtection(CopyProtectionCommand),
    /// This is needed for engines that need a username and/or a code to function with all features.
    Registration(RegistrationCommand),
    /// The engine wants to send information to the GUI.
    ///
    /// This should be done whenever one of the info has changed.
    Info(Box<InfoCommand>),
    /// This command tells the GUI which parameters can be changed in the engine.
    ///
    /// This should be sent once at engine startup after the `uci` and the `id` commands if any parameter can be changed in the engine.
    Option(),
}

impl EngineToGuiCommand {
    /// The text of the command: that of its payload, which begins with the
    /// command's keyword, or the keyword alone where there is no payload.
    pub open spec fn text(&self) -> Seq<char> {
        match self {
            EngineToGuiCommand::Id(id) => id.text(),
            EngineToGuiCommand::UciOk => "uciok"@,
            EngineToGuiCommand::ReadyOk => "readyok"@,
            EngineToGuiCommand::BestMove(best_move) => best_move.text(),
            EngineToGuiCommand::CopyProtection(status) => status.text(),
            EngineToGuiCommand::Registration(status) => status.text(),
            EngineToGuiCommand::Info(info) => info@.text(),
            EngineToGuiCommand::Option() => "option"@,
        }
    }

    /// The keyword of the command.
    pub open spec fn keyword_text(&self) -> Seq<char> {
        match self {
            EngineToGuiCommand::Id(_) => "id"@,
            EngineToGuiCommand::UciOk => "uciok"@,
            EngineToGuiCommand::ReadyOk => "readyok"@,
            EngineToGuiCommand::BestMove(_) => "bestmove"@,
            EngineToGuiCommand::CopyProtection(_) => "copyprotection"@,
            EngineToGuiCommand::Registration(_) => "registration"@,
            EngineToGuiCommand::Info(_) => "info"@,
            EngineToGuiCommand::Option() => "option"@,
        }
    }

    /// The keyword that the engine sends for this command.
    pub fn keyword(&self) -> (keyword: &'static str)
        ensures
            keyword@ == self.keyword_text(),
    {
        match self {
            EngineToGuiCommand::Id(_) => "id",
            EngineToGuiCommand::UciOk => "uciok",
            EngineToGuiCommand::ReadyOk => "readyok",
            EngineToGuiCommand::BestMove(_) => "bestmove",
            EngineToGuiCommand::CopyProtection(_) => "copyprotection",
            EngineToGuiCommand::Registration(_) => "registration",
            EngineToGuiCommand::Info(_) => "info",
            EngineToGuiCommand::Option() => "option",
        }
    }

    /// Framing inverts formatting: the line of a command has a name, and
    /// the name is the command's keyword.
    pub proof fn lemma_named_by_keyword(&self)
        ensures
            tokens(self.text()).len() > 0,
            tokens(self.text())[0] == self.keyword_text(),
    {
        match self {
            EngineToGuiCommand::Id(id) => id.lemma_keyword(),
            EngineToGuiCommand::BestMove(best_move) => best_move.lemma_keyword(),
            EngineToGuiCommand::CopyProtection(status) => status.lemma_keyword(),
            EngineToGuiCommand::Registration(status) => status.lemma_keyword(),
            EngineToGuiCommand::Info(info) => info@.lemma_keyword(),
            _ => {
                reveal_strlit("uciok");
                reveal_strlit("readyok");
                reveal_strlit("option");
                lemma_tokens_after_word(self.text(), Seq::empty());
            },
        }
    }

    /// Frames the command as the raw command of its line. The raw command
    /// has a name, which is the keyword of the command.
    pub fn to_raw(&self) -> (raw: RawCommand)
        ensures
            raw.content@ == self.text(),
            raw.has_name(),
            tokens(raw.content@)[0] == self.keyword_text(),
    {
        proof {
            self.lemma_named_by_keyword();
        }
        RawCommand::new(self.to_string())
    }

    /// Formats the command as a protocol line.
    pub fn to_string(&self) -> (s: String)
        ensures
            s@ == self.text(),
    {
        match self {
            EngineToGuiCommand::Id(id) => id.to_string(),
            EngineToGuiCommand::UciOk => String::from_str("uciok"),
            EngineToGuiCommand::ReadyOk => String::from_str("readyok"),
            EngineToGuiCommand::BestMove(best_move) => best_move.to_string(),
            EngineToGuiCommand::CopyProtection(status) => status.to_string(),
            EngineToGuiCommand::Registration(status) => status.to_string(),
            EngineToGuiCommand::Info(info) => info.to_string(),
            EngineToGuiCommand::Option() => String::from_str("option"),
        }
    }
}

} // verus!
