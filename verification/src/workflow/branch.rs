//! Branch selection: the operator picks the branch of the secrets repository
//! that the project tracks.

use vstd::prelude::*;
use crate::configuration::ConfigurationView;
use crate::protocol::{Action, ActionView, Event, EventView};
use crate::workflow::setup::set_latest_hash_if_needed;
use crate::workflow::state::{Operation, Phase, Workflow, WorkflowView};

verus! {

impl WorkflowView {
    /// Where branch selection begins. With a branch already set and `force`
    /// off, the branch stands and the operation goes on. Otherwise the
    /// repository is asked first which branch it has checked out, so that the
    /// operator can be shown it.
    pub open spec fn prompt_for_branch(self, force: bool) -> (WorkflowView, ActionView) {
        if !self.configuration.needs_branch() && !force {
            self.after_branch()
        } else {
            self.proceed(Phase::BranchCurrent, ActionView::QueryCurrentBranch)
        }
    }

    /// What follows branch selection: an update looks at how the branch that
    /// is checked out stands against its remote, init goes on to the pinned
    /// commit.
    pub open spec fn after_branch(self) -> (WorkflowView, ActionView) {
        if self.operation == Operation::Update {
            self.proceed(
                Phase::SyncStatus,
                ActionView::QuerySyncStatus { branch: self.current_branch },
            )
        } else {
            self.set_latest_hash_if_needed()
        }
    }

    /// The step of branch selection. The operator picks among the
    /// repository's branches, with the checked-out branch as the default, and
    /// the pick becomes the manifest's branch as it is.
    pub open spec fn branch_next(self, event: EventView) -> (WorkflowView, ActionView) {
        match (self.phase, event) {
            (Phase::BranchCurrent, EventView::Text(branch)) => WorkflowView {
                current_branch: branch,
                ..self
            }.proceed(Phase::BranchList, ActionView::ListBranches),
            (Phase::BranchList, EventView::Names(options)) => self.proceed(
                Phase::BranchSelect,
                ActionView::Select { options, default: self.current_branch },
            ),
            (Phase::BranchSelect, EventView::Text(branch)) => WorkflowView {
                configuration: ConfigurationView { branch, ..self.configuration },
                ..self
            }.after_branch(),
            _ => self.refused(event),
        }
    }
}

/// Begins branch selection, unless a branch is set and `force` is off.
pub(crate) fn prompt_for_branch(workflow: Workflow, force: bool) -> (next: (Workflow, Action))
    requires
        workflow.wf(),
        workflow.outcome is None,
        workflow.operation.selects_branch(),
    ensures
        next.0.wf(),
        (next.0@, next.1@) == workflow@.prompt_for_branch(force),
{
    if !workflow.configuration.needs_branch() && !force {
        after_branch(workflow)
    } else {
        let mut workflow = workflow;
        workflow.phase = Phase::BranchCurrent;
        (workflow, Action::QueryCurrentBranch)
    }
}

/// Goes on with what follows branch selection.
pub(crate) fn after_branch(workflow: Workflow) -> (next: (Workflow, Action))
    requires
        workflow.wf(),
        workflow.outcome is None,
        workflow.operation.selects_branch(),
    ensures
        next.0.wf(),
        (next.0@, next.1@) == workflow@.after_branch(),
{
    match workflow.operation {
        Operation::Update => {
            let mut workflow = workflow;
            workflow.phase = Phase::SyncStatus;
            let branch = workflow.current_branch.clone();
            (workflow, Action::QuerySyncStatus { branch })
        },
        _ => set_latest_hash_if_needed(workflow),
    }
}

/// Takes the answer to a step of branch selection.
pub(crate) fn branch_step(workflow: Workflow, event: Event) -> (next: (Workflow, Action))
    requires
        workflow.wf(),
        workflow.outcome is None,
        workflow.phase.is_branch(),
    ensures
        next.0.wf(),
        (next.0@, next.1@) == workflow@.branch_next(event@),
{
    let mut workflow = workflow;
    match (workflow.phase, event) {
        (Phase::BranchCurrent, Event::Text(branch)) => {
            workflow.current_branch = branch;
            workflow.phase = Phase::BranchList;
            (workflow, Action::ListBranches)
        },
        (Phase::BranchList, Event::Names(options)) => {
            let default = workflow.current_branch.clone();
            workflow.phase = Phase::BranchSelect;
            (workflow, Action::Select { options, default })
        },
        (Phase::BranchSelect, Event::Text(branch)) => {
            workflow.configuration.branch = branch;
            after_branch(workflow)
        },
        (_, event) => workflow.refused(event),
    }
}

} // verus!
