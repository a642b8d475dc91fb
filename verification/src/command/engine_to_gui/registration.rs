use crate::text::{lemma_tokens_after_word, tokens};
use vstd::prelude::*;
use vstd::string::*;

verus! {

/// A command for engines that need registration to communicate the status to the GUI.
#[derive(Debug, Clone, Copy, PartialEq, Eq, Structural)]
pub enum RegistrationCommand {
    /// Tell the GUI that the registration is being checked now.
    Checking,
    /// The registration check has been successful.
    Okay,
    /// The registration check has failed.
    ///
    /// Not all engine features might work anymore.
    Error,
}

impl RegistrationCommand {
    /// The text of the command: the keyword `registration` and the status.
    pub open spec fn text(self) -> Seq<char> {
        match self {
            RegistrationCommand::Checking => "registration checking"@,
            RegistrationCommand::Okay => "registration ok"@,
            RegistrationCommand::Error => "registration error"@,
        }
    }

    /// The line of the command is named `registration`: that is its first
    /// token.
    pub proof fn lemma_keyword(self)
        ensures
            tokens(self.text()).len() > 0,
            tokens(self.text())[0] == "registration"@,
    {
        reveal_strlit("registration");
        reveal_strlit("registration checking");
        reveal_strlit("registration ok");
        reveal_strlit("registration error");
        reveal_strlit(" checking");
        reveal_strlit(" ok");
        reveal_strlit(" error");
        let rest = match self {
            RegistrationCommand::Checking => " checking"@,
            RegistrationCommand::Okay => " ok"@,
            RegistrationCommand::Error => " error"@,
        };
        assert(self.text() == "registration"@ + rest);
        lemma_tokens_after_word("registration"@, rest);
    }

    /// Formats the command as a protocol line.
    pub fn to_string(&self) -> (s: String)
        ensures
            s@ == self.text(),
    {
        let line = match self {
            RegistrationCommand::Checking => "registration checking",
            RegistrationCommand::Okay => "registration ok",
            RegistrationCommand::Error => "registration error",
        };
        String::from_str(line)
    }
}

} // verus!
