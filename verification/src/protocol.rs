//! What a workflow asks of its caller, and what the caller reports back.
//!
//! An [`Action`] is one call on a collaborator: the secrets repository, the
//! key store, the encryption provider, the prompter or the file system. The
//! caller performs it and hands the result back as an [`Event`].

use vstd::prelude::*;
use crate::configuration::{ConfigurationFile, ConfigurationView};
use crate::error::ConfigureError;

verus! {

/// How the local secrets repository stands against its remote.
#[derive(Debug, Clone, Copy, PartialEq, Eq, Structural)]
pub enum RepoSyncState {
    /// The local clone has commits that the remote lacks.
    Ahead,
    /// The remote has commits that the local clone lacks.
    Behind,
    Synced,
}

/// A sync state with the number of commits that separate the two sides.
#[derive(Debug, Clone, Copy, PartialEq, Eq, Structural)]
pub struct RepoStatus {
    pub sync_state: RepoSyncState,
    /// The count of commits along the diverging path, whatever the direction.
    pub distance: u32,
}

/// A yes-or-no question for the operator.
#[derive(Debug, Clone, Copy, PartialEq, Eq, Structural)]
pub enum Question {
    /// The local clone and its remote differ by `distance` commits: go on?
    ContinueDespiteDrift { sync_state: RepoSyncState, distance: u32 },
    /// The pinned commit is `distance` commits behind the branch: adopt its tip?
    UseLatestSecrets { distance: u32 },
    /// Add file mappings to a manifest that has none?
    AddFiles,
    /// Add file mappings to a manifest that has some?
    AddAdditionalFiles,
}

/// A question that the operator answers with a line of text.
#[derive(Debug, Clone, Copy, PartialEq, Eq, Structural)]
pub enum TextQuestion {
    ProjectName,
    /// The path of a secret, relative to the root of the secrets repository.
    SourcePath,
    /// Where the secret goes, relative to the project root.
    DestinationPath,
}

/// How an operation ended.
#[derive(Debug, Clone, Copy, PartialEq, Eq, Structural)]
pub enum Outcome {
    /// Every step was carried out.
    Completed,
    /// The operator chose not to go on; nothing was changed.
    Declined,
    /// A step failed.
    Failed(ConfigureError),
    /// An event arrived that does not answer the pending action.
    Rejected,
}

/// The views of a list of texts, in order.
pub open spec fn text_views(texts: Seq<String>) -> Seq<Seq<char>> {
    texts.map_values(|text: String| text@)
}

/// What an [`Action`] is in contracts.
pub enum ActionView {
    QueryCurrentBranch,
    QueryCurrentHash,
    ListBranches,
    FetchLatest,
    CheckoutBranch { branch: Seq<char> },
    CheckoutBranchAtRevision { branch: Seq<char>, hash: Seq<char> },
    QuerySyncStatus { branch: Seq<char> },
    QueryHashDistance { older: Seq<char>, newer: Seq<char> },
    QueryLatestHash { branch: Seq<char> },
    FindRepository,
    PathExists { path: Seq<char> },
    ReadKey { project_name: Seq<char> },
    GenerateKey { project_name: Seq<char> },
    ReadSecret { source: Seq<char> },
    ReadEncrypted { path: Seq<char> },
    Encrypt { plaintext: Seq<u8>, key: Seq<u8> },
    Decrypt { ciphertext: Seq<u8>, key: Seq<u8> },
    WriteFile { path: Seq<char>, contents: Seq<u8> },
    SaveConfiguration { configuration: ConfigurationView },
    Report { configuration: ConfigurationView },
    Confirm { question: Question },
    Select { options: Seq<Seq<char>>, default: Seq<char> },
    PromptText { prompt: TextQuestion },
    Finish { outcome: Outcome },
}

/// The next thing for the caller to do.
#[derive(Debug, PartialEq, Eq)]
pub enum Action {
    /// Ask the secrets repository which branch is checked out. Answer: `Text`.
    QueryCurrentBranch,
    /// Ask the secrets repository which commit is checked out. Answer: `Text`.
    QueryCurrentHash,
    /// Ask the secrets repository for its branches. Answer: `Names`.
    ListBranches,
    /// Fetch the remote's refs into the local clone, without checking anything
    /// out. Answer: `Acknowledged`.
    FetchLatest,
    /// Check out the tip of `branch`. Answer: `Acknowledged`.
    CheckoutBranch { branch: String },
    /// Check out `branch` at commit `hash`. Answer: `Acknowledged`.
    CheckoutBranchAtRevision { branch: String, hash: String },
    /// Compare `branch`, which is the branch that is checked out, with its
    /// remote. Answer: `Status`.
    QuerySyncStatus { branch: String },
    /// Count the commits from `older` to `newer`. Answer: `Distance`.
    QueryHashDistance { older: String, newer: String },
    /// Ask for the newest commit of `branch`. Answer: `Text`.
    QueryLatestHash { branch: String },
    /// Locate the local clone of the secrets repository. Answer: `Text`, its
    /// path, or `Missing`.
    FindRepository,
    /// Ask whether anything exists at `path`. Answer: `Answer`.
    PathExists { path: String },
    /// Look up the project's encryption key. Answer: `Contents`, or `Missing`.
    ReadKey { project_name: String },
    /// Create an encryption key for the project. Answer: `Contents`.
    GenerateKey { project_name: String },
    /// Read the plaintext at `source` in the secrets repository as it is
    /// checked out. Answer: `Contents`, or `Missing`.
    ReadSecret { source: String },
    /// Read the encrypted file at `path` in the project. Answer: `Contents`,
    /// or `Missing`.
    ReadEncrypted { path: String },
    /// Encrypt `plaintext` under `key`. Answer: `Contents`.
    Encrypt { plaintext: Vec<u8>, key: Vec<u8> },
    /// Decrypt `ciphertext` under `key`. Answer: `Contents`.
    Decrypt { ciphertext: Vec<u8>, key: Vec<u8> },
    /// Write `contents` to `path` in the project, replacing what is there.
    /// Answer: `Acknowledged`.
    WriteFile { path: String, contents: Vec<u8> },
    /// Persist the manifest. Answer: `Acknowledged`.
    SaveConfiguration { configuration: ConfigurationFile },
    /// Show the manifest to the operator. Answer: `Acknowledged`.
    Report { configuration: ConfigurationFile },
    /// Put a yes-or-no question to the operator. Answer: `Answer`.
    Confirm { question: Question },
    /// Let the operator pick one of `options`, with `default` marked.
    /// Answer: `Text`.
    Select { options: Vec<String>, default: String },
    /// Ask the operator for a line of text. Answer: `Text`.
    PromptText { prompt: TextQuestion },
    /// Nothing is left to do.
    Finish { outcome: Outcome },
}

impl View for Action {
    type V = ActionView;

    open spec fn view(&self) -> ActionView {
        match self {
            Action::QueryCurrentBranch => ActionView::QueryCurrentBranch,
            Action::QueryCurrentHash => ActionView::QueryCurrentHash,
            Action::ListBranches => ActionView::ListBranches,
            Action::FetchLatest => ActionView::FetchLatest,
            Action::CheckoutBranch { branch } => ActionView::CheckoutBranch { branch: branch@ },
            Action::CheckoutBranchAtRevision { branch, hash } => ActionView::CheckoutBranchAtRevision {
                branch: branch@,
                hash: hash@,
            },
            Action::QuerySyncStatus { branch } => ActionView::QuerySyncStatus { branch: branch@ },
            Action::QueryHashDistance { older, newer } => ActionView::QueryHashDistance {
                older: older@,
                newer: newer@,
            },
            Action::QueryLatestHash { branch } => ActionView::QueryLatestHash { branch: branch@ },
            Action::FindRepository => ActionView::FindRepository,
            Action::PathExists { path } => ActionView::PathExists { path: path@ },
            Action::ReadKey { project_name } => ActionView::ReadKey { project_name: project_name@ },
            Action::GenerateKey { project_name } => ActionView::GenerateKey {
                project_name: project_name@,
            },
            Action::ReadSecret { source } => ActionView::ReadSecret { source: source@ },
            Action::ReadEncrypted { path } => ActionView::ReadEncrypted { path: path@ },
            Action::Encrypt { plaintext, key } => ActionView::Encrypt {
                plaintext: plaintext@,
                key: key@,
            },
            Action::Decrypt { ciphertext, key } => ActionView::Decrypt {
                ciphertext: ciphertext@,
                key: key@,
            },
            Action::WriteFile { path, contents } => ActionView::WriteFile {
                path: path@,
                contents: contents@,
            },
            Action::SaveConfiguration { configuration } => ActionView::SaveConfiguration {
                configuration: configuration@,
            },
            Action::Report { configuration } => ActionView::Report { configuration: configuration@ },
            Action::Confirm { question } => ActionView::Confirm { question: *question },
            Action::Select { options, default } => ActionView::Select {
                options: text_views(options@),
                default: default@,
            },
            Action::PromptText { prompt } => ActionView::PromptText { prompt: *prompt },
            Action::Finish { outcome } => ActionView::Finish { outcome: *outcome },
        }
    }
}

/// What an [`Event`] is in contracts.
pub enum EventView {
    Acknowledged,
    Text(Seq<char>),
    Names(Seq<Seq<char>>),
    Status(RepoStatus),
    Distance(u32),
    Answer(bool),
    Contents(Seq<u8>),
    Missing,
    Failed(ConfigureError),
}

/// How the pending action went.
#[derive(Debug, PartialEq, Eq)]
pub enum Event {
    /// The action was carried out; it has no result.
    Acknowledged,
    /// A branch, a commit hash, a path, or what the operator typed or picked.
    Text(String),
    Names(Vec<String>),
    Status(RepoStatus),
    /// A count of commits.
    Distance(u32),
    /// The operator's yes or no, or whether a path exists.
    Answer(bool),
    /// The bytes of a file or of a key, or the result of encrypting or
    /// decrypting.
    Contents(Vec<u8>),
    /// What was asked for does not exist: the file, the key, or the
    /// repository.
    Missing,
    /// The action failed.
    Failed(ConfigureError),
}

impl View for Event {
    type V = EventView;

    open spec fn view(&self) -> EventView {
        match self {
            Event::Acknowledged => EventView::Acknowledged,
            Event::Text(text) => EventView::Text(text@),
            Event::Names(names) => EventView::Names(text_views(names@)),
            Event::Status(status) => EventView::Status(*status),
            Event::Distance(distance) => EventView::Distance(*distance),
            Event::Answer(answer) => EventView::Answer(*answer),
            Event::Contents(bytes) => EventView::Contents(bytes@),
            Event::Missing => EventView::Missing,
            Event::Failed(error) => EventView::Failed(*error),
        }
    }
}

} // verus!
