//! The two passes over the file mappings: encrypting the secrets into the
//! project, and decrypting them into place.

use vstd::prelude::*;
use crate::configuration::{encrypted_path, ConfigurationFile, ConfigurationView};
use crate::error::ConfigureError;
use crate::protocol::{Action, ActionView, Event, EventView, Outcome};
use crate::workflow::state::{Operation, Phase, Workflow, WorkflowView};

verus! {

impl WorkflowView {
    /// Decrypting, from the mapping at the cursor on: its encrypted file is
    /// read next; with no mapping left the operation is complete.
    pub open spec fn apply_from_cursor(self) -> (WorkflowView, ActionView) {
        if self.has_mapping() {
            self.proceed(
                Phase::ApplyRead,
                ActionView::ReadEncrypted { path: encrypted_path(self.mapping().destination) },
            )
        } else {
            self.halted(Outcome::Completed)
        }
    }

    /// The step of the decrypting pass. A mapping's encrypted file is read,
    /// then the key is looked up, the bytes are decrypted and the result is
    /// written to the mapping's destination. An encrypted file or a key that
    /// is missing ends the pass, before anything is written for the mapping.
    pub open spec fn apply_next(self, event: EventView) -> (WorkflowView, ActionView) {
        match (self.phase, event) {
            (Phase::ApplyRead, EventView::Contents(bytes)) => WorkflowView {
                buffer: bytes,
                ..self
            }.proceed(
                Phase::ApplyKey,
                ActionView::ReadKey { project_name: self.configuration.project_name },
            ),
            (Phase::ApplyRead, EventView::Missing) => self.halted(
                Outcome::Failed(ConfigureError::EncryptedFileMissing),
            ),
            (Phase::ApplyKey, EventView::Contents(key)) => WorkflowView {
                buffer: Seq::empty(),
                ..self
            }.proceed(Phase::ApplyDecrypt, ActionView::Decrypt { ciphertext: self.buffer, key }),
            (Phase::ApplyKey, EventView::Missing) => self.halted(
                Outcome::Failed(ConfigureError::MissingProjectKey),
            ),
            (Phase::ApplyDecrypt, EventView::Contents(plaintext)) => self.proceed(
                Phase::ApplyWrite,
                ActionView::WriteFile { path: self.mapping().destination, contents: plaintext },
            ),
            (Phase::ApplyWrite, EventView::Acknowledged) => WorkflowView {
                cursor: self.cursor + 1,
                ..self
            }.apply_from_cursor(),
            _ => self.refused(event),
        }
    }

    /// Encrypting, from the mapping at the cursor on: its plaintext is read
    /// from the secrets repository next; with no mapping left the repository
    /// is put back to where the update found it.
    pub open spec fn encrypt_from_cursor(self) -> (WorkflowView, ActionView) {
        if self.has_mapping() {
            self.proceed(Phase::EncryptRead, ActionView::ReadSecret { source: self.mapping().source })
        } else {
            self.proceed(
                Phase::Rollback,
                ActionView::CheckoutBranchAtRevision {
                    branch: self.starting_branch,
                    hash: self.starting_ref,
                },
            )
        }
    }

    /// The step of the encrypting pass. A mapping's plaintext is read, then
    /// the key is looked up, the bytes are encrypted and the result is
    /// written beside the mapping's destination. A step that fails ends the
    /// pass and the update, by way of the rollback; a plaintext that is not
    /// there fails as reading does, a key that is not there as
    /// `MissingProjectKey`.
    pub open spec fn encrypt_next(self, event: EventView) -> (WorkflowView, ActionView) {
        match (self.phase, event) {
            (Phase::EncryptRead, EventView::Contents(bytes)) => WorkflowView {
                buffer: bytes,
                ..self
            }.proceed(
                Phase::EncryptKey,
                ActionView::ReadKey { project_name: self.configuration.project_name },
            ),
            (Phase::EncryptRead, EventView::Missing) => self.rolled_back(
                Outcome::Failed(ConfigureError::DataDecryptionError),
            ),
            (Phase::EncryptKey, EventView::Contents(key)) => WorkflowView {
                buffer: Seq::empty(),
                ..self
            }.proceed(Phase::Encrypt, ActionView::Encrypt { plaintext: self.buffer, key }),
            (Phase::EncryptKey, EventView::Missing) => self.rolled_back(
                Outcome::Failed(ConfigureError::MissingProjectKey),
            ),
            (Phase::Encrypt, EventView::Contents(ciphertext)) => self.proceed(
                Phase::EncryptWrite,
                ActionView::WriteFile {
                    path: encrypted_path(self.mapping().destination),
                    contents: ciphertext,
                },
            ),
            (Phase::EncryptWrite, EventView::Acknowledged) => WorkflowView {
                cursor: self.cursor + 1,
                ..self
            }.encrypt_from_cursor(),
            _ => self.rolled_back(event.as_failure()),
        }
    }
}

/// What [`apply_configuration`] returns.
pub open spec fn apply_start(configuration: ConfigurationView) -> (WorkflowView, ActionView) {
    WorkflowView::fresh(Operation::Apply, Phase::ApplyRead, configuration).apply_from_cursor()
}

/// Starts the decrypting of a project's encrypted files into place, one
/// mapping after the other in the manifest's order.
pub fn apply_configuration(configuration: ConfigurationFile) -> (start: (Workflow, Action))
    ensures
        start.0.wf(),
        (start.0@, start.1@) == apply_start(configuration@),
{
    apply_from_cursor(Workflow::fresh(Operation::Apply, Phase::ApplyRead, configuration))
}

/// Goes on with the decrypting at the cursor.
pub(crate) fn apply_from_cursor(workflow: Workflow) -> (next: (Workflow, Action))
    requires
        workflow.operation.decrypts(),
        workflow.outcome is None,
        workflow.phase.belongs_to(workflow.operation),
    ensures
        next.0.wf(),
        (next.0@, next.1@) == workflow@.apply_from_cursor(),
{
    let mut workflow = workflow;
    if workflow.cursor < workflow.configuration.files_to_copy.len() {
        let path = workflow.configuration.files_to_copy[workflow.cursor].get_encrypted_destination();
        workflow.phase = Phase::ApplyRead;
        (workflow, Action::ReadEncrypted { path })
    } else {
        workflow.halted(Outcome::Completed)
    }
}

/// Takes the answer to a step of the decrypting pass.
pub(crate) fn apply_step(workflow: Workflow, event: Event) -> (next: (Workflow, Action))
    requires
        workflow.wf(),
        workflow.outcome is None,
        workflow.phase.is_apply(),
    ensures
        next.0.wf(),
        (next.0@, next.1@) == workflow@.apply_next(event@),
{
    let mut workflow = workflow;
    match (workflow.phase, event) {
        (Phase::ApplyRead, Event::Contents(bytes)) => {
            workflow.buffer = bytes;
            workflow.phase = Phase::ApplyKey;
            let project_name = workflow.configuration.project_name.clone();
            (workflow, Action::ReadKey { project_name })
        },
        (Phase::ApplyRead, Event::Missing) => workflow.halted(
            Outcome::Failed(ConfigureError::EncryptedFileMissing),
        ),
        (Phase::ApplyKey, Event::Contents(key)) => {
            let ciphertext = workflow.buffer;
            workflow.buffer = Vec::new();
            workflow.phase = Phase::ApplyDecrypt;
            (workflow, Action::Decrypt { ciphertext, key })
        },
        (Phase::ApplyKey, Event::Missing) => workflow.halted(
            Outcome::Failed(ConfigureError::MissingProjectKey),
        ),
        (Phase::ApplyDecrypt, Event::Contents(contents)) => {
            let path = workflow.configuration.files_to_copy[workflow.cursor].get_decrypted_destination();
            workflow.phase = Phase::ApplyWrite;
            (workflow, Action::WriteFile { path, contents })
        },
        (Phase::ApplyWrite, Event::Acknowledged) => {
            assert(workflow.cursor < workflow.configuration.files_to_copy.len());
            workflow.cursor = workflow.cursor + 1;
            apply_from_cursor(workflow)
        },
        (_, event) => workflow.refused(event),
    }
}

/// Goes on with the encrypting at the cursor.
pub(crate) fn encrypt_from_cursor(workflow: Workflow) -> (next: (Workflow, Action))
    requires
        workflow.operation == Operation::Update,
        workflow.outcome is None,
    ensures
        next.0.wf(),
        (next.0@, next.1@) == workflow@.encrypt_from_cursor(),
{
    let mut workflow = workflow;
    if workflow.cursor < workflow.configuration.files_to_copy.len() {
        let source = workflow.configuration.files_to_copy[workflow.cursor].source.clone();
        workflow.phase = Phase::EncryptRead;
        (workflow, Action::ReadSecret { source })
    } else {
        let branch = workflow.starting_branch.clone();
        let hash = workflow.starting_ref.clone();
        workflow.phase = Phase::Rollback;
        (workflow, Action::CheckoutBranchAtRevision { branch, hash })
    }
}

/// Takes the answer to a step of the encrypting pass.
pub(crate) fn encrypt_step(workflow: Workflow, event: Event) -> (next: (Workflow, Action))
    requires
        workflow.wf(),
        workflow.outcome is None,
        workflow.phase.is_encrypt(),
    ensures
        next.0.wf(),
        (next.0@, next.1@) == workflow@.encrypt_next(event@),
{
    let mut workflow = workflow;
    match (workflow.phase, event) {
        (Phase::EncryptRead, Event::Contents(bytes)) => {
            workflow.buffer = bytes;
            workflow.phase = Phase::EncryptKey;
            let project_name = workflow.configuration.project_name.clone();
            (workflow, Action::ReadKey { project_name })
        },
        (Phase::EncryptRead, Event::Missing) => workflow.rolled_back(
            Outcome::Failed(ConfigureError::DataDecryptionError),
        ),
        (Phase::EncryptKey, Event::Contents(key)) => {
            let plaintext = workflow.buffer;
            workflow.buffer = Vec::new();
            workflow.phase = Phase::Encrypt;
            (workflow, Action::Encrypt { plaintext, key })
        },
        (Phase::EncryptKey, Event::Missing) => workflow.rolled_back(
            Outcome::Failed(ConfigureError::MissingProjectKey),
        ),
        (Phase::Encrypt, Event::Contents(contents)) => {
            let path = workflow.configuration.files_to_copy[workflow.cursor].get_encrypted_destination();
            workflow.phase = Phase::EncryptWrite;
            (workflow, Action::WriteFile { path, contents })
        },
        (Phase::EncryptWrite, Event::Acknowledged) => {
            assert(workflow.cursor < workflow.configuration.files_to_copy.len());
            workflow.cursor = workflow.cursor + 1;
            encrypt_from_cursor(workflow)
        },
        (_, event) => {
            let failure = event.as_failure();
            workflow.rolled_back(failure)
        },
    }
}

} // verus!
