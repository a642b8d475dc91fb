//! The commands of the protocol, and the framing of a protocol line.

use crate::convert::converted;
use crate::text::{is_word, lemma_tokens_are_words, split_ascii_whitespace, texts, tokens};
use vstd::prelude::*;
use vstd::string::*;

pub mod engine_to_gui;
pub mod gui_to_engine;

verus! {

/// A raw protocol command.
#[derive(Debug, Clone, PartialEq, Eq)]
pub struct RawCommand {
    /// The full content of the command.
    pub content: String,
}

/// An error has occured while parsing a protocol command.
#[derive(Debug, Clone, Copy, PartialEq, Eq, Structural)]
pub struct CommandParseError;

impl RawCommand {
    /// Whether the command has a name: its line holds at least one token.
    pub open spec fn has_name(&self) -> bool {
        tokens(self.content@).len() > 0
    }

    /// Create a new command with the given content.
    pub fn new<S>(content: S) -> (command: Self) where S: Into<String>
        ensures
            converted(content, command.content),
    {
        RawCommand { content: content.into() }
    }

    /// Get the whitespace-separated tokens of the command, from left to
    /// right. The command is left as it is, so the tokens can be had again.
    pub fn tokens(&self) -> (words: Vec<&str>)
        ensures
            texts(words@) == tokens(self.content@),
            forall|i: int| 0 <= i < words@.len() ==> is_word(#[trigger] words@[i]@),
    {
        let words = split_ascii_whitespace(self.content.as_str());
        proof {
            lemma_tokens_are_words(self.content@);
            assert forall|i: int| 0 <= i < words@.len() implies is_word(#[trigger] words@[i]@) by {
                assert(texts(words@)[i] == words@[i]@);
            }
        }
        words
    }

    /// Get the name of the command.
    ///
    /// The name is the first token. A command without a token has no name.
    pub fn name(&self) -> (name: String)
        requires
            self.has_name(),
        ensures
            name@ == tokens(self.content@)[0],
            is_word(name@),
    {
        let words = self.tokens();
        String::from_str(words[0])
    }

    /// Get the arguments of the command.
    ///
    /// The arguments are all tokens but the first; a command without a token
    /// has none.
    pub fn arguments(&self) -> (arguments: Vec<&str>)
        ensures
            texts(arguments@) == if self.has_name() {
                tokens(self.content@).drop_first()
            } else {
                Seq::empty()
            },
    {
        let mut words = self.tokens();
        if words.len() > 0 {
            // Discard the name
            words.remove(0);
        }
        words
    }

    /// The text of the command: its content, unchanged.
    pub fn to_string(&self) -> (s: String)
        ensures
            s@ == self.content@,
    {
        self.content.clone()
    }

    /// Frames a line as a raw command. Every line is accepted.
    pub fn from_str(s: &str) -> (r: Result<RawCommand, CommandParseError>)
        ensures
            r matches Ok(command) && command.content@ == s@,
    {
        Ok(RawCommand::new(s))
    }
}

impl core::str::FromStr for RawCommand {
    type Err = CommandParseError;

    fn from_str(s: &str) -> (r: Result<Self, Self::Err>)
        ensures
            r matches Ok(command) && command.content@ == s@,
    {
        RawCommand::from_str(s)
    }
}

} // verus!
