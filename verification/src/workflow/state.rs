//! The state that a workflow carries from one step to the next.

use vstd::prelude::*;
use crate::configuration::{ConfigurationFile, ConfigurationView, FileView};
use crate::path::{source_stays_under_root, stays_under_root};
use crate::protocol::{Action, ActionView, Event, EventView, Outcome, Question};

verus! {

/// Which of the four operations a workflow carries out.
#[derive(Debug, Clone, Copy, PartialEq, Eq, Structural)]
pub enum Operation {
    /// Decrypt the project's encrypted files into place.
    Apply,
    /// Move the pinned commit forward and encrypt the secrets anew.
    Update,
    /// Fill in what the manifest lacks.
    Init,
    /// Show the manifest.
    Validate,
}

/// The step whose answer a workflow waits for.
#[derive(Debug, Clone, Copy, PartialEq, Eq, Structural)]
pub enum Phase {
    /// Update: which branch does the secrets repository have checked out?
    CaptureBranch,
    /// Update: which commit does it have checked out?
    CaptureHash,
    /// Update: fetching the remote's refs.
    Fetch,
    /// Branch selection: which branch is checked out?
    BranchCurrent,
    /// Branch selection: which branches are there?
    BranchList,
    /// Branch selection: the operator picks one.
    BranchSelect,
    /// Update: how does the local clone stand against its remote?
    SyncStatus,
    /// Update: the operator decides whether drift matters.
    ConfirmDrift,
    /// Distance: which branch is checked out?
    DistanceBranch,
    /// Distance: which commit is checked out?
    DistanceHash,
    /// Distance: checking out the tracked branch.
    DistanceCheckout,
    /// Distance: which commit is its tip?
    DistanceLatest,
    /// Distance: how far is the pinned commit behind that tip?
    DistanceCount,
    /// Distance: checking out what was there before.
    DistanceRestore,
    /// Update: the operator decides whether to adopt the newest commit.
    ConfirmLatest,
    /// Update: which commit is the newest of the tracked branch?
    LatestHash,
    /// Update: checking out the tracked branch at its newest commit.
    CheckoutLatest,
    /// Update, init: persisting the manifest.
    Save,
    /// Update: reading the plaintext of the mapping at the cursor.
    EncryptRead,
    /// Update: looking up the project's key.
    EncryptKey,
    /// Update: encrypting.
    Encrypt,
    /// Update: writing the encrypted file.
    EncryptWrite,
    /// Update: checking out what was there when the operation began.
    Rollback,
    /// Apply: reading the encrypted file of the mapping at the cursor.
    ApplyRead,
    /// Apply: looking up the project's key.
    ApplyKey,
    /// Apply: decrypting.
    ApplyDecrypt,
    /// Apply: writing the decrypted file.
    ApplyWrite,
    /// Init: the operator names the project.
    ProjectName,
    /// Init: which commit is the newest of the chosen branch?
    PinnedHash,
    /// Init: the operator decides whether to add a mapping.
    AddFilesConfirm,
    /// Init: the operator names the source of a mapping.
    AddFileSource,
    /// Init: where is the secrets repository?
    AddFileRoot,
    /// Init: does the source exist there?
    AddFileExists,
    /// Init: the operator names the destination of the mapping.
    AddFileDestination,
    /// Init: does the project have a key?
    KeyLookup,
    /// Init: creating the project's key.
    KeyGenerate,
    /// Validate: showing the manifest.
    Report,
}

/// What a [`Workflow`] is in contracts.
pub struct WorkflowView {
    pub operation: Operation,
    pub phase: Phase,
    pub outcome: Option<Outcome>,
    pub failure: Option<Outcome>,
    pub configuration: ConfigurationView,
    pub starting_branch: Seq<char>,
    pub starting_ref: Seq<char>,
    pub current_branch: Seq<char>,
    pub current_hash: Seq<char>,
    pub latest_hash: Seq<char>,
    pub distance: u32,
    pub cursor: int,
    pub buffer: Seq<u8>,
    pub source: Seq<char>,
    pub question: Question,
}

impl WorkflowView {
    /// The state in which `operation` starts on `configuration`, waiting in
    /// `phase`.
    pub open spec fn fresh(
        operation: Operation,
        phase: Phase,
        configuration: ConfigurationView,
    ) -> WorkflowView {
        WorkflowView {
            operation,
            phase,
            outcome: None,
            failure: None,
            configuration,
            starting_branch: Seq::empty(),
            starting_ref: Seq::empty(),
            current_branch: Seq::empty(),
            current_hash: Seq::empty(),
            latest_hash: Seq::empty(),
            distance: 0,
            cursor: 0,
            buffer: Seq::empty(),
            source: Seq::empty(),
            question: Question::AddFiles,
        }
    }

    /// The file mapping at the cursor.
    pub open spec fn mapping(self) -> FileView {
        self.configuration.files_to_copy[self.cursor]
    }

    /// Whether a file mapping is left at the cursor.
    pub open spec fn has_mapping(self) -> bool {
        self.cursor < self.configuration.files_to_copy.len()
    }

    /// Whether the phase is one of the operation's, a step that works on a
    /// file mapping has one at the cursor, and a source that is held for a
    /// mapping to be added stays under the root of the secrets repository.
    pub open spec fn wf(self) -> bool {
        &&& self.phase.belongs_to(self.operation)
        &&& 0 <= self.cursor
        &&& self.outcome is None && self.phase.works_on_mapping() ==> self.has_mapping()
        &&& self.phase.holds_source() ==> stays_under_root(self.source)
    }

    /// The workflow waiting in `phase`, with `action` to perform.
    pub open spec fn proceed(self, phase: Phase, action: ActionView) -> (WorkflowView, ActionView) {
        (WorkflowView { phase, ..self }, action)
    }

    /// The workflow ended with `outcome`, in the phase it had reached.
    pub open spec fn halted(self, outcome: Outcome) -> (WorkflowView, ActionView) {
        (WorkflowView { outcome: Some(outcome), ..self }, ActionView::Finish { outcome })
    }

    /// The workflow ended because `event` is not an answer that the pending
    /// action can have.
    pub open spec fn refused(self, event: EventView) -> (WorkflowView, ActionView) {
        self.halted(event.as_failure())
    }

    /// The update gives up with `failure`: what the secrets repository had
    /// checked out when the update began is checked out again first.
    pub open spec fn rolled_back(self, failure: Outcome) -> (WorkflowView, ActionView) {
        WorkflowView { failure: Some(failure), ..self }.proceed(
            Phase::Rollback,
            ActionView::CheckoutBranchAtRevision {
                branch: self.starting_branch,
                hash: self.starting_ref,
            },
        )
    }
}

impl EventView {
    /// How a workflow ends on an event that does not answer the pending
    /// action: with the failure that the event reports, or as rejected.
    pub open spec fn as_failure(self) -> Outcome {
        match self {
            EventView::Failed(error) => Outcome::Failed(error),
            _ => Outcome::Rejected,
        }
    }
}

impl Operation {
    /// Whether the operation ends with the decrypting of the project's files.
    pub open spec fn decrypts(self) -> bool {
        self == Operation::Apply || self == Operation::Update
    }

    /// Whether the operation lets the operator pick the branch to track.
    pub open spec fn selects_branch(self) -> bool {
        self == Operation::Update || self == Operation::Init
    }
}

impl Phase {
    /// The phases of branch selection.
    pub open spec fn is_branch(self) -> bool {
        self == Phase::BranchCurrent || self == Phase::BranchList || self == Phase::BranchSelect
    }

    /// The phases of the distance check.
    pub open spec fn is_distance(self) -> bool {
        self == Phase::DistanceBranch || self == Phase::DistanceHash || self
            == Phase::DistanceCheckout || self == Phase::DistanceLatest || self
            == Phase::DistanceCount || self == Phase::DistanceRestore
    }

    /// The phases of the encrypting pass.
    pub open spec fn is_encrypt(self) -> bool {
        self == Phase::EncryptRead || self == Phase::EncryptKey || self == Phase::Encrypt || self
            == Phase::EncryptWrite
    }

    /// The phases of the decrypting pass.
    pub open spec fn is_apply(self) -> bool {
        self == Phase::ApplyRead || self == Phase::ApplyKey || self == Phase::ApplyDecrypt || self
            == Phase::ApplyWrite
    }

    /// The phases that init has for itself.
    pub open spec fn is_setup(self) -> bool {
        self == Phase::ProjectName || self == Phase::PinnedHash || self == Phase::AddFilesConfirm
            || self == Phase::AddFileSource || self == Phase::AddFileRoot || self
            == Phase::AddFileExists || self == Phase::AddFileDestination || self
            == Phase::KeyLookup || self == Phase::KeyGenerate
    }

    /// The phases that update has for itself, besides the distance check and
    /// the encrypting pass.
    pub open spec fn is_update(self) -> bool {
        self == Phase::CaptureBranch || self == Phase::CaptureHash || self == Phase::Fetch || self
            == Phase::SyncStatus || self == Phase::ConfirmDrift || self == Phase::ConfirmLatest
            || self == Phase::LatestHash || self == Phase::CheckoutLatest || self
            == Phase::Rollback
    }

    /// The phases of init in which the source of a mapping that is being
    /// added is held, to be joined to the root and to go into the manifest.
    pub open spec fn holds_source(self) -> bool {
        self == Phase::AddFileRoot || self == Phase::AddFileExists || self
            == Phase::AddFileDestination
    }

    /// Whether the phase belongs to the handling of the file mapping at the
    /// cursor.
    pub open spec fn works_on_mapping(self) -> bool {
        self.is_encrypt() || self.is_apply()
    }

    /// Whether `operation` can come to wait in this phase.
    pub open spec fn belongs_to(self, operation: Operation) -> bool {
        if self.is_update() || self.is_distance() || self.is_encrypt() {
            operation == Operation::Update
        } else if self.is_apply() {
            operation.decrypts()
        } else if self.is_branch() || self == Phase::Save {
            operation.selects_branch()
        } else if self.is_setup() {
            operation == Operation::Init
        } else {
            operation == Operation::Validate
        }
    }
}

/// One operation under way.
#[derive(Debug, PartialEq, Eq)]
pub struct Workflow {
    pub operation: Operation,
    pub phase: Phase,
    /// How the operation ended, once it has.
    pub outcome: Option<Outcome>,
    /// How an update that has given up is to end, once the secrets
    /// repository is put back.
    pub failure: Option<Outcome>,
    /// The manifest as the operation has changed it so far.
    pub configuration: ConfigurationFile,
    /// The branch that the secrets repository had checked out when an update
    /// began.
    pub starting_branch: String,
    /// The commit that it had checked out then.
    pub starting_ref: String,
    /// The branch that was checked out when last asked.
    pub current_branch: String,
    /// The commit that was checked out when last asked.
    pub current_hash: String,
    /// The newest commit of the tracked branch, as last learnt.
    pub latest_hash: String,
    /// How many commits the pinned commit is behind the tracked branch.
    pub distance: u32,
    /// The index of the file mapping that is being worked on.
    pub cursor: usize,
    /// The bytes read for that mapping.
    pub buffer: Vec<u8>,
    /// The source path of the mapping that the operator is adding.
    pub source: String,
    /// How the operator is asked whether to add a mapping.
    pub question: Question,
}

impl View for Workflow {
    type V = WorkflowView;

    open spec fn view(&self) -> WorkflowView {
        WorkflowView {
            operation: self.operation,
            phase: self.phase,
            outcome: self.outcome,
            failure: self.failure,
            configuration: self.configuration@,
            starting_branch: self.starting_branch@,
            starting_ref: self.starting_ref@,
            current_branch: self.current_branch@,
            current_hash: self.current_hash@,
            latest_hash: self.latest_hash@,
            distance: self.distance,
            cursor: self.cursor as int,
            buffer: self.buffer@,
            source: self.source@,
            question: self.question,
        }
    }
}

impl Event {
    /// See [`EventView::as_failure`].
    pub(crate) fn as_failure(&self) -> (outcome: Outcome)
        ensures
            outcome == self@.as_failure(),
    {
        match self {
            Event::Failed(error) => Outcome::Failed(*error),
            _ => Outcome::Rejected,
        }
    }
}

impl Phase {
    /// See [`Phase::works_on_mapping`].
    fn needs_mapping(self) -> (needed: bool)
        ensures
            needed == self.works_on_mapping(),
    {
        match self {
            Phase::EncryptRead
            | Phase::EncryptKey
            | Phase::Encrypt
            | Phase::EncryptWrite
            | Phase::ApplyRead
            | Phase::ApplyKey
            | Phase::ApplyDecrypt
            | Phase::ApplyWrite => true,
            _ => false,
        }
    }

    /// See [`Phase::holds_source`].
    fn keeps_source(self) -> (kept: bool)
        ensures
            kept == self.holds_source(),
    {
        match self {
            Phase::AddFileRoot | Phase::AddFileExists | Phase::AddFileDestination => true,
            _ => false,
        }
    }

    /// See [`Phase::belongs_to`].
    fn fits(self, operation: Operation) -> (fits: bool)
        ensures
            fits == self.belongs_to(operation),
    {
        match self {
            Phase::ApplyRead | Phase::ApplyKey | Phase::ApplyDecrypt | Phase::ApplyWrite => {
                match operation {
                    Operation::Apply | Operation::Update => true,
                    _ => false,
                }
            },
            Phase::BranchCurrent | Phase::BranchList | Phase::BranchSelect | Phase::Save => {
                match operation {
                    Operation::Update | Operation::Init => true,
                    _ => false,
                }
            },
            Phase::ProjectName
            | Phase::PinnedHash
            | Phase::AddFilesConfirm
            | Phase::AddFileSource
            | Phase::AddFileRoot
            | Phase::AddFileExists
            | Phase::AddFileDestination
            | Phase::KeyLookup
            | Phase::KeyGenerate => match operation {
                Operation::Init => true,
                _ => false,
            },
            Phase::Report => match operation {
                Operation::Validate => true,
                _ => false,
            },
            _ => match operation {
                Operation::Update => true,
                _ => false,
            },
        }
    }
}

impl Workflow {
    /// See [`WorkflowView::wf`].
    pub open spec fn wf(&self) -> bool {
        self@.wf()
    }

    /// Whether the workflow is one that [`Workflow::step`] takes: every
    /// workflow that this crate hands out is.
    pub fn is_well_formed(&self) -> (well_formed: bool)
        ensures
            well_formed == self.wf(),
    {
        let mappings = self.configuration.files_to_copy.len();
        self.phase.fits(self.operation) && (self.outcome.is_some() || !self.phase.needs_mapping()
            || self.cursor < mappings) && (!self.phase.keeps_source() || source_stays_under_root(
            self.source.as_str(),
        ))
    }

    /// The state in which `operation` starts on `configuration`, waiting in
    /// `phase`.
    pub(crate) fn fresh(operation: Operation, phase: Phase, configuration: ConfigurationFile) -> (workflow:
        Workflow)
        ensures
            workflow@ == WorkflowView::fresh(operation, phase, configuration@),
    {
        Workflow {
            operation,
            phase,
            outcome: None,
            failure: None,
            configuration,
            starting_branch: String::new(),
            starting_ref: String::new(),
            current_branch: String::new(),
            current_hash: String::new(),
            latest_hash: String::new(),
            distance: 0,
            cursor: 0,
            buffer: Vec::new(),
            source: String::new(),
            question: Question::AddFiles,
        }
    }

    /// Ends the workflow with `outcome`.
    pub(crate) fn halted(self, outcome: Outcome) -> (next: (Workflow, Action))
        ensures
            (next.0@, next.1@) == self@.halted(outcome),
    {
        let mut workflow = self;
        workflow.outcome = Some(outcome);
        (workflow, Action::Finish { outcome })
    }

    /// Ends the workflow on an event that does not answer the pending action.
    pub(crate) fn refused(self, event: Event) -> (next: (Workflow, Action))
        ensures
            (next.0@, next.1@) == self@.refused(event@),
    {
        let outcome = event.as_failure();
        self.halted(outcome)
    }

    /// Gives the update up with `failure`, by way of the rollback.
    pub(crate) fn rolled_back(self, failure: Outcome) -> (next: (Workflow, Action))
        ensures
            (next.0@, next.1@) == self@.rolled_back(failure),
    {
        let mut workflow = self;
        workflow.failure = Some(failure);
        workflow.phase = Phase::Rollback;
        let branch = workflow.starting_branch.clone();
        let hash = workflow.starting_ref.clone();
        (workflow, Action::CheckoutBranchAtRevision { branch, hash })
    }

    /// Whether the operation has ended.
    pub fn is_finished(&self) -> (finished: bool)
        ensures
            finished == self@.outcome.is_some(),
    {
        self.outcome.is_some()
    }
}

} // verus!
