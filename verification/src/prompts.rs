//! The words in which the operator is asked.

use vstd::prelude::*;
use vstd::string::*;
use crate::numerals::{decimal, decimal_text};
use crate::protocol::{Question, RepoSyncState, TextQuestion};

verus! {

impl Question {
    /// What the operator is told before the question is put, if anything.
    pub open spec fn warning_text(self) -> Option<Seq<char>> {
        match self {
            Question::ContinueDespiteDrift { sync_state: RepoSyncState::Ahead, distance } => Some(
                "Your local secrets repo has "@ + decimal(distance as nat)
                    + " change(s) that the server does not"@,
            ),
            Question::ContinueDespiteDrift { sync_state: RepoSyncState::Behind, distance } => Some(
                "The server has "@ + decimal(distance as nat)
                    + " change(s) that your local secrets repo does not"@,
            ),
            _ => None,
        }
    }

    /// The question as it is put.
    pub open spec fn message_text(self) -> Seq<char> {
        match self {
            Question::ContinueDespiteDrift { .. } => "Would you like to continue?"@,
            Question::UseLatestSecrets { distance } => "This project is "@ + decimal(distance as nat)
                + " commit(s) behind the latest secrets. Would you like to use the latest secrets?"@,
            Question::AddFiles => "Would you like to add files?"@,
            Question::AddAdditionalFiles => "Would you like to add additional files?"@,
        }
    }

    /// What the operator is told before the question is put: where the local
    /// clone and its remote differ, which of the two is ahead and by how many
    /// commits.
    pub fn warning(&self) -> (text: Option<String>)
        ensures
            match text {
                Some(text) => self.warning_text() == Some(text@),
                None => self.warning_text() is None,
            },
    {
        match self {
            Question::ContinueDespiteDrift { sync_state: RepoSyncState::Ahead, distance } => {
                let mut text = String::from_str("Your local secrets repo has ");
                text.append(decimal_text(*distance).as_str());
                text.append(" change(s) that the server does not");
                Some(text)
            },
            Question::ContinueDespiteDrift { sync_state: RepoSyncState::Behind, distance } => {
                let mut text = String::from_str("The server has ");
                text.append(decimal_text(*distance).as_str());
                text.append(" change(s) that your local secrets repo does not");
                Some(text)
            },
            _ => None,
        }
    }

    /// The question as it is put.
    pub fn message(&self) -> (text: String)
        ensures
            text@ == self.message_text(),
    {
        match self {
            Question::ContinueDespiteDrift { .. } => String::from_str("Would you like to continue?"),
            Question::UseLatestSecrets { distance } => {
                let mut text = String::from_str("This project is ");
                text.append(decimal_text(*distance).as_str());
                text.append(
                    " commit(s) behind the latest secrets. Would you like to use the latest secrets?",
                );
                text
            },
            Question::AddFiles => String::from_str("Would you like to add files?"),
            Question::AddAdditionalFiles => String::from_str("Would you like to add additional files?"),
        }
    }
}

impl TextQuestion {
    /// The question as it is put.
    pub open spec fn message_text(self) -> Seq<char> {
        match self {
            TextQuestion::ProjectName => "What is the name of your project?"@,
            TextQuestion::SourcePath => "Enter the source file path (relative to the secrets root):"@,
            TextQuestion::DestinationPath => "Enter the destination file path (relative to the project root):"@,
        }
    }

    /// The question as it is put.
    pub fn message(&self) -> (text: String)
        ensures
            text@ == self.message_text(),
    {
        match self {
            TextQuestion::ProjectName => String::from_str("What is the name of your project?"),
            TextQuestion::SourcePath => String::from_str(
                "Enter the source file path (relative to the secrets root):",
            ),
            TextQuestion::DestinationPath => String::from_str(
                "Enter the destination file path (relative to the project root):",
            ),
        }
    }
}

} // verus!
