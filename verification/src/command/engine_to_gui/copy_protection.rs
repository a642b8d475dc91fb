use crate::text::{lemma_tokens_after_word, tokens};
use vstd::prelude::*;
use vstd::string::*;

verus! {

/// A command for copy protected engines to communicate the status to the GUI.
#[derive(Debug, Clone, Copy, PartialEq, Eq, Structural)]
pub enum CopyProtectionCommand {
    /// Tell the GUI that the copy protection is being checked now.
    Checking,
    /// The copy protection check has been successful.
    Okay,
    /// The copy protection check has failed.
    ///
    /// After this, the engine will not function properly anymore.
    Error,
}

impl CopyProtectionCommand {
    /// The text of the command: the keyword `copyprotection` and the status.
    pub open spec fn text(self) -> Seq<char> {
        match self {
            CopyProtectionCommand::Checking => "copyprotection checking"@,
            CopyProtectionCommand::Okay => "copyprotection ok"@,
            CopyProtectionCommand::Error => "copyprotection error"@,
        }
    }

    /// The line of the command is named `copyprotection`: that is its first
    /// token.
    pub proof fn lemma_keyword(self)
        ensures
            tokens(self.text()).len() > 0,
            tokens(self.text())[0] == "copyprotection"@,
    {
        reveal_strlit("copyprotection");
        reveal_strlit("copyprotection checking");
        reveal_strlit("copyprotection ok");
        reveal_strlit("copyprotection error");
        reveal_strlit(" checking");
        reveal_strlit(" ok");
        reveal_strlit(" error");
        let rest = match self {
            CopyProtectionCommand::Checking => " checking"@,
            CopyProtectionCommand::Okay => " ok"@,
            CopyProtectionCommand::Error => " error"@,
        };
        assert(self.text() == "copyprotection"@ + rest);
        lemma_tokens_after_word("copyprotection"@, rest);
    }

    /// Formats the command as a protocol line.
    pub fn to_string(&self) -> (s: String)
        ensures
            s@ == self.text(),
    {
        let line = match self {
            CopyProtectionCommand::Checking => "copyprotection checking",
            CopyProtectionCommand::Okay => "copyprotection ok",
            CopyProtectionCommand::Error => "copyprotection error",
        };
        String::from_str(line)
    }
}

} // verus!
