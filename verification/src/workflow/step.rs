//! One step of a workflow, whatever the operation.

use vstd::prelude::*;
use crate::configuration::{ConfigurationFile, ConfigurationView};
use crate::protocol::{Action, ActionView, Event, EventView, Outcome};
use crate::workflow::branch::branch_step;
use crate::workflow::distance::distance_step;
use crate::workflow::files::{apply_step, encrypt_from_cursor, encrypt_step};
use crate::workflow::setup::setup_step;
use crate::workflow::state::{Operation, Phase, Workflow, WorkflowView};
use crate::workflow::update::update_step;

verus! {

/// What [`validate_configuration`] returns.
pub open spec fn validate_start(configuration: ConfigurationView) -> (WorkflowView, ActionView) {
    (
        WorkflowView::fresh(Operation::Validate, Phase::Report, configuration),
        ActionView::Report { configuration },
    )
}

impl WorkflowView {
    /// The manifest is persisted as the workflow holds it.
    pub open spec fn save(self) -> (WorkflowView, ActionView) {
        self.proceed(
            Phase::Save,
            ActionView::SaveConfiguration { configuration: self.configuration },
        )
    }

    /// What follows once the manifest is persisted: an update encrypts the
    /// secrets for each mapping, from the first on; init looks up the
    /// project's key.
    pub open spec fn after_save(self) -> (WorkflowView, ActionView) {
        if self.operation == Operation::Update {
            WorkflowView { cursor: 0, ..self }.encrypt_from_cursor()
        } else {
            self.proceed(
                Phase::KeyLookup,
                ActionView::ReadKey { project_name: self.configuration.project_name },
            )
        }
    }

    /// What follows when the manifest could not be persisted: init ends
    /// there, an update ends by way of the rollback.
    pub open spec fn save_failed(self, event: EventView) -> (WorkflowView, ActionView) {
        if self.operation == Operation::Update {
            self.rolled_back(event.as_failure())
        } else {
            self.refused(event)
        }
    }

    /// The state after `event`, and the action to perform next.
    ///
    /// A workflow that has ended stays as it is and says so again. An event
    /// that reports a failure makes the workflow end with that failure, and an
    /// event of a kind that the pending action cannot have makes it end as
    /// rejected: at once, or, where an update may have moved the checkout of
    /// the secrets repository, after the checkout that puts it back. The one
    /// failure that is passed over is that of locating the secrets repository
    /// while a mapping is being added.
    pub open spec fn next(self, event: EventView) -> (WorkflowView, ActionView) {
        if self.outcome is Some {
            (self, ActionView::Finish { outcome: self.outcome->0 })
        } else if self.phase.is_update() {
            self.update_next(event)
        } else if self.phase.is_branch() {
            self.branch_next(event)
        } else if self.phase.is_distance() {
            self.distance_next(event)
        } else if self.phase.is_encrypt() {
            self.encrypt_next(event)
        } else if self.phase.is_apply() {
            self.apply_next(event)
        } else if self.phase.is_setup() {
            self.setup_next(event)
        } else {
            match (self.phase, event) {
                (Phase::Save, EventView::Acknowledged) => self.after_save(),
                (Phase::Save, _) => self.save_failed(event),
                (Phase::Report, EventView::Acknowledged) => self.halted(Outcome::Completed),
                _ => self.refused(event),
            }
        }
    }
}

/// Starts the validation of a manifest: it is shown to the operator as it is.
pub fn validate_configuration(configuration: ConfigurationFile) -> (start: (Workflow, Action))
    ensures
        start.0.wf(),
        (start.0@, start.1@) == validate_start(configuration@),
{
    let shown = configuration.clone();
    (
        Workflow::fresh(Operation::Validate, Phase::Report, configuration),
        Action::Report { configuration: shown },
    )
}

/// Asks for the manifest to be persisted.
pub(crate) fn save(workflow: Workflow) -> (next: (Workflow, Action))
    requires
        workflow.wf(),
        workflow.operation.selects_branch(),
    ensures
        next.0.wf(),
        (next.0@, next.1@) == workflow@.save(),
{
    let mut workflow = workflow;
    workflow.phase = Phase::Save;
    let configuration = workflow.configuration.clone();
    (workflow, Action::SaveConfiguration { configuration })
}

/// Goes on once the manifest is persisted.
fn after_save(workflow: Workflow) -> (next: (Workflow, Action))
    requires
        workflow.wf(),
        workflow.outcome is None,
        workflow.operation.selects_branch(),
    ensures
        next.0.wf(),
        (next.0@, next.1@) == workflow@.after_save(),
{
    let mut workflow = workflow;
    match workflow.operation {
        Operation::Update => {
            workflow.cursor = 0;
            encrypt_from_cursor(workflow)
        },
        _ => {
            workflow.phase = Phase::KeyLookup;
            let project_name = workflow.configuration.project_name.clone();
            (workflow, Action::ReadKey { project_name })
        },
    }
}

impl Workflow {
    /// Takes the event that answers the pending action, and names the next
    /// action.
    pub fn step(self, event: Event) -> (next: (Workflow, Action))
        requires
            self.wf(),
        ensures
            next.0.wf(),
            (next.0@, next.1@) == self@.next(event@),
    {
        match self.outcome {
            Some(outcome) => (self, Action::Finish { outcome }),
            None => match self.phase {
                Phase::CaptureBranch
                | Phase::CaptureHash
                | Phase::Fetch
                | Phase::SyncStatus
                | Phase::ConfirmDrift
                | Phase::ConfirmLatest
                | Phase::LatestHash
                | Phase::CheckoutLatest
                | Phase::Rollback => update_step(self, event),
                Phase::BranchCurrent | Phase::BranchList | Phase::BranchSelect => branch_step(
                    self,
                    event,
                ),
                Phase::DistanceBranch
                | Phase::DistanceHash
                | Phase::DistanceCheckout
                | Phase::DistanceLatest
                | Phase::DistanceCount
                | Phase::DistanceRestore => distance_step(self, event),
                Phase::EncryptRead | Phase::EncryptKey | Phase::Encrypt | Phase::EncryptWrite => {
                    encrypt_step(self, event)
                },
                Phase::ApplyRead | Phase::ApplyKey | Phase::ApplyDecrypt | Phase::ApplyWrite => {
                    apply_step(self, event)
                },
                Phase::ProjectName
                | Phase::PinnedHash
                | Phase::AddFilesConfirm
                | Phase::AddFileSource
                | Phase::AddFileRoot
                | Phase::AddFileExists
                | Phase::AddFileDestination
                | Phase::KeyLookup
                | Phase::KeyGenerate => setup_step(self, event),
                Phase::Save => match event {
                    Event::Acknowledged => after_save(self),
                    event => match self.operation {
                        Operation::Update => {
                            let failure = event.as_failure();
                            self.rolled_back(failure)
                        },
                        _ => self.refused(event),
                    },
                },
                Phase::Report => match event {
                    Event::Acknowledged => self.halted(Outcome::Completed),
                    event => self.refused(event),
                },
            },
        }
    }
}

} // verus!
