//! Init: fill in what the manifest lacks, persist it, and see to it that the
//! project has an encryption key.

use vstd::prelude::*;
use crate::configuration::{ConfigurationFile, ConfigurationView, File, FileView};
use crate::path::{
    joined, lemma_empty_path_stays_under_root, path_join, source_stays_under_root,
    stays_under_root,
};
use crate::protocol::{Action, ActionView, Event, EventView, Outcome, Question, TextQuestion};
use crate::workflow::branch::prompt_for_branch;
use crate::workflow::state::{Operation, Phase, Workflow, WorkflowView};
use crate::workflow::step::save;

verus! {

/// What [`setup_configuration`] returns.
pub open spec fn setup_start(configuration: ConfigurationView) -> (WorkflowView, ActionView) {
    WorkflowView::fresh(
        Operation::Init,
        Phase::ProjectName,
        configuration,
    ).prompt_for_project_name_if_needed()
}

impl WorkflowView {
    /// The operator is asked for the project's name only where the manifest
    /// has none; the branch is asked for in any case.
    pub open spec fn prompt_for_project_name_if_needed(self) -> (WorkflowView, ActionView) {
        if self.configuration.needs_project_name() {
            self.proceed(
                Phase::ProjectName,
                ActionView::PromptText { prompt: TextQuestion::ProjectName },
            )
        } else {
            self.prompt_for_branch(true)
        }
    }

    /// A manifest without a pinned commit is pinned to the newest commit of
    /// its branch; one that has a pinned commit keeps it.
    pub open spec fn set_latest_hash_if_needed(self) -> (WorkflowView, ActionView) {
        if self.configuration.needs_pinned_hash() {
            self.proceed(
                Phase::PinnedHash,
                ActionView::QueryLatestHash { branch: self.configuration.branch },
            )
        } else {
            self.prompt_to_add_files()
        }
    }

    /// How the operator is asked whether to add a mapping: settled once, by
    /// whether the manifest has mappings when the asking begins.
    pub open spec fn prompt_to_add_files(self) -> (WorkflowView, ActionView) {
        WorkflowView {
            question: if self.configuration.files_to_copy.len() == 0 {
                Question::AddFiles
            } else {
                Question::AddAdditionalFiles
            },
            ..self
        }.ask_for_more()
    }

    /// The operator is asked whether to add a mapping.
    pub open spec fn ask_for_more(self) -> (WorkflowView, ActionView) {
        self.proceed(Phase::AddFilesConfirm, ActionView::Confirm { question: self.question })
    }

    /// Where the adding of one mapping begins: with its source path.
    pub open spec fn prompt_to_add_file(self) -> (WorkflowView, ActionView) {
        self.proceed(Phase::AddFileSource, ActionView::PromptText { prompt: TextQuestion::SourcePath })
    }

    /// The step of init, for the phases that are its own.
    ///
    /// A mapping is added only when its source exists under the root of the
    /// secrets repository. So the source has to be relative and must not step
    /// above the root on its way: one that does is dropped before the
    /// repository is looked for, whatever exists at the place that it names.
    /// Then the repository has to be found, and something has to exist at the
    /// source joined to its root. A source that passes both goes into the
    /// manifest as it was typed. A mapping that fails any of these is dropped
    /// without a word, the manifest stays as it is, and the operator is asked
    /// again whether to add one. Once the operator adds no more the manifest
    /// is persisted, and a key is created for the project if it has none.
    pub open spec fn setup_next(self, event: EventView) -> (WorkflowView, ActionView) {
        match (self.phase, event) {
            (Phase::ProjectName, EventView::Text(name)) => WorkflowView {
                configuration: ConfigurationView { project_name: name, ..self.configuration },
                ..self
            }.prompt_for_branch(true),
            (Phase::PinnedHash, EventView::Text(hash)) => WorkflowView {
                configuration: ConfigurationView { pinned_hash: hash, ..self.configuration },
                ..self
            }.prompt_to_add_files(),
            (Phase::AddFilesConfirm, EventView::Answer(more)) => if more {
                self.prompt_to_add_file()
            } else {
                self.save()
            },
            (Phase::AddFileSource, EventView::Text(source)) => if stays_under_root(source) {
                WorkflowView { source, ..self }.proceed(
                    Phase::AddFileRoot,
                    ActionView::FindRepository,
                )
            } else {
                self.ask_for_more()
            },
            (Phase::AddFileRoot, EventView::Text(root)) => self.proceed(
                Phase::AddFileExists,
                ActionView::PathExists { path: joined(root, self.source) },
            ),
            (Phase::AddFileRoot, EventView::Failed(_)) => self.ask_for_more(),
            (Phase::AddFileRoot, EventView::Missing) => self.ask_for_more(),
            (Phase::AddFileExists, EventView::Answer(exists)) => if exists {
                self.proceed(
                    Phase::AddFileDestination,
                    ActionView::PromptText { prompt: TextQuestion::DestinationPath },
                )
            } else {
                self.ask_for_more()
            },
            (Phase::AddFileDestination, EventView::Text(destination)) => WorkflowView {
                configuration: ConfigurationView {
                    files_to_copy: self.configuration.files_to_copy.push(
                        FileView { source: self.source, destination },
                    ),
                    ..self.configuration
                },
                source: Seq::empty(),
                ..self
            }.ask_for_more(),
            (Phase::KeyLookup, EventView::Contents(_)) => self.halted(Outcome::Completed),
            (Phase::KeyLookup, EventView::Missing) => self.proceed(
                Phase::KeyGenerate,
                ActionView::GenerateKey { project_name: self.configuration.project_name },
            ),
            (Phase::KeyGenerate, EventView::Contents(_)) => self.halted(Outcome::Completed),
            _ => self.refused(event),
        }
    }
}

/// Starts the setting up of a project's manifest.
pub fn setup_configuration(configuration: ConfigurationFile) -> (start: (Workflow, Action))
    ensures
        start.0.wf(),
        (start.0@, start.1@) == setup_start(configuration@),
{
    prompt_for_project_name_if_needed(
        Workflow::fresh(Operation::Init, Phase::ProjectName, configuration),
    )
}

/// Asks for the project's name where the manifest has none.
pub(crate) fn prompt_for_project_name_if_needed(workflow: Workflow) -> (next: (Workflow, Action))
    requires
        workflow.wf(),
        workflow.outcome is None,
        workflow.operation == Operation::Init,
    ensures
        next.0.wf(),
        (next.0@, next.1@) == workflow@.prompt_for_project_name_if_needed(),
{
    if !workflow.configuration.needs_project_name() {
        return prompt_for_branch(workflow, true);
    }
    let mut workflow = workflow;
    workflow.phase = Phase::ProjectName;
    (workflow, Action::PromptText { prompt: TextQuestion::ProjectName })
}

/// Asks for the newest commit of the manifest's branch where the manifest has
/// no pinned commit.
pub(crate) fn set_latest_hash_if_needed(workflow: Workflow) -> (next: (Workflow, Action))
    requires
        workflow.wf(),
        workflow.outcome is None,
        workflow.operation == Operation::Init,
    ensures
        next.0.wf(),
        (next.0@, next.1@) == workflow@.set_latest_hash_if_needed(),
{
    if !workflow.configuration.needs_pinned_hash() {
        return prompt_to_add_files(workflow);
    }
    let mut workflow = workflow;
    workflow.phase = Phase::PinnedHash;
    let branch = workflow.configuration.branch.clone();
    (workflow, Action::QueryLatestHash { branch })
}

/// Begins the asking for file mappings.
pub(crate) fn prompt_to_add_files(workflow: Workflow) -> (next: (Workflow, Action))
    requires
        workflow.wf(),
        workflow.operation == Operation::Init,
    ensures
        next.0.wf(),
        (next.0@, next.1@) == workflow@.prompt_to_add_files(),
{
    let mut workflow = workflow;
    workflow.question = Question::AddFiles;
    if workflow.configuration.files_to_copy.len() != 0 {
        workflow.question = Question::AddAdditionalFiles;
    }
    ask_for_more(workflow)
}

/// Asks whether to add a mapping.
pub(crate) fn ask_for_more(workflow: Workflow) -> (next: (Workflow, Action))
    requires
        workflow.wf(),
        workflow.operation == Operation::Init,
    ensures
        next.0.wf(),
        (next.0@, next.1@) == workflow@.ask_for_more(),
{
    let mut workflow = workflow;
    workflow.phase = Phase::AddFilesConfirm;
    let question = workflow.question;
    (workflow, Action::Confirm { question })
}

/// Begins the adding of one mapping.
pub(crate) fn prompt_to_add_file(workflow: Workflow) -> (next: (Workflow, Action))
    requires
        workflow.wf(),
        workflow.operation == Operation::Init,
    ensures
        next.0.wf(),
        (next.0@, next.1@) == workflow@.prompt_to_add_file(),
{
    let mut workflow = workflow;
    workflow.phase = Phase::AddFileSource;
    (workflow, Action::PromptText { prompt: TextQuestion::SourcePath })
}

/// Takes the answer to a step of init's own.
pub(crate) fn setup_step(workflow: Workflow, event: Event) -> (next: (Workflow, Action))
    requires
        workflow.wf(),
        workflow.outcome is None,
        workflow.phase.is_setup(),
    ensures
        next.0.wf(),
        (next.0@, next.1@) == workflow@.setup_next(event@),
{
    let mut workflow = workflow;
    match (workflow.phase, event) {
        (Phase::ProjectName, Event::Text(name)) => {
            workflow.configuration.project_name = name;
            prompt_for_branch(workflow, true)
        },
        (Phase::PinnedHash, Event::Text(hash)) => {
            workflow.configuration.pinned_hash = hash;
            prompt_to_add_files(workflow)
        },
        (Phase::AddFilesConfirm, Event::Answer(more)) => {
            if more {
                prompt_to_add_file(workflow)
            } else {
                save(workflow)
            }
        },
        (Phase::AddFileSource, Event::Text(source)) => {
            if !source_stays_under_root(source.as_str()) {
                return ask_for_more(workflow);
            }
            workflow.source = source;
            workflow.phase = Phase::AddFileRoot;
            (workflow, Action::FindRepository)
        },
        (Phase::AddFileRoot, Event::Text(root)) => {
            let path = path_join(root.as_str(), workflow.source.as_str());
            workflow.phase = Phase::AddFileExists;
            (workflow, Action::PathExists { path })
        },
        (Phase::AddFileRoot, Event::Failed(_)) => ask_for_more(workflow),
        (Phase::AddFileRoot, Event::Missing) => ask_for_more(workflow),
        (Phase::AddFileExists, Event::Answer(exists)) => {
            if exists {
                workflow.phase = Phase::AddFileDestination;
                (workflow, Action::PromptText { prompt: TextQuestion::DestinationPath })
            } else {
                ask_for_more(workflow)
            }
        },
        (Phase::AddFileDestination, Event::Text(destination)) => {
            let source = workflow.source;
            workflow.source = String::new();
            proof {
                lemma_empty_path_stays_under_root();
            }
            let ghost before = workflow.configuration.files_to_copy@;
            workflow.configuration.files_to_copy.push(File { source, destination });
            assert(workflow@.configuration.files_to_copy =~= crate::configuration::file_views(
                before,
            ).push(FileView { source: source@, destination: destination@ }));
            ask_for_more(workflow)
        },
        (Phase::KeyLookup, Event::Contents(_)) => workflow.halted(Outcome::Completed),
        (Phase::KeyLookup, Event::Missing) => {
            workflow.phase = Phase::KeyGenerate;
            let project_name = workflow.configuration.project_name.clone();
            (workflow, Action::GenerateKey { project_name })
        },
        (Phase::KeyGenerate, Event::Contents(_)) => workflow.halted(Outcome::Completed),
        (_, event) => workflow.refused(event),
    }
}

} // verus!
