use crate::convert::converted;
use crate::text::{lemma_tokens_after_word, tokens};
use vstd::prelude::*;
use vstd::string::*;

verus! {

/// Command to identify the engine to the GUI.
#[derive(Debug, Clone, PartialEq, Eq)]
pub enum IdCommand {
    /// The name of the engine.
    Name(String),
    /// The author of the engine.
    Author(String),
}

impl IdCommand {
    /// The text of the command: `id name` or `id author`, then the name as
    /// it is.
    pub open spec fn text(&self) -> Seq<char> {
        match self {
            IdCommand::Name(name) => "id name "@ + name@,
            IdCommand::Author(author) => "id author "@ + author@,
        }
    }

    /// Construct a new ID command with the given name.
    pub fn new_name<S>(name: S) -> (command: Self) where S: Into<String>
        ensures
            command matches IdCommand::Name(text) && converted(name, text),
    {
        IdCommand::Name(name.into())
    }

    /// Construct a new ID command with the given author.
    pub fn new_author<S>(author: S) -> (command: Self) where S: Into<String>
        ensures
            command matches IdCommand::Author(text) && converted(author, text),
    {
        IdCommand::Author(author.into())
    }

    /// The line of the command is named `id`: that is its first token.
    pub proof fn lemma_keyword(&self)
        ensures
            tokens(self.text()).len() > 0,
            tokens(self.text())[0] == "id"@,
    {
        reveal_strlit("id");
        reveal_strlit("id name ");
        reveal_strlit("id author ");
        reveal_strlit(" name ");
        reveal_strlit(" author ");
        match self {
            IdCommand::Name(name) => {
                assert(self.text() == "id"@ + (" name "@ + name@));
                lemma_tokens_after_word("id"@, " name "@ + name@);
            },
            IdCommand::Author(author) => {
                assert(self.text() == "id"@ + (" author "@ + author@));
                lemma_tokens_after_word("id"@, " author "@ + author@);
            },
        }
    }

    /// Formats the command as a protocol line.
    pub fn to_string(&self) -> (s: String)
        ensures
            s@ == self.text(),
    {
        match self {
            IdCommand::Name(name) => {
                let mut s = String::from_str("id name ");
                s.append(name.as_str());
                s
            },
            IdCommand::Author(author) => {
                let mut s = String::from_str("id author ");
                s.append(author.as_str());
                s
            },
        }
    }
}

} // verus!
