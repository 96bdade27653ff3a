//! Whole runs of a workflow, and what every run keeps of the manifest.

use vstd::prelude::*;
use crate::configuration::{encrypted_path, ConfigurationView, FileView};
use crate::error::ConfigureError;
use crate::path::{joined, stays_under_root};
use crate::protocol::{ActionView, EventView, Outcome};
use crate::workflow::files::apply_start;
use crate::workflow::setup::setup_start;
use crate::workflow::state::{Operation, Phase, WorkflowView};
use crate::workflow::step::validate_start;
use crate::workflow::update::update_start;

verus! {

/// The state of a workflow that began as `start` once it has taken `events`,
/// with the action that it then asks for.
pub open spec fn run(start: (WorkflowView, ActionView), events: Seq<EventView>) -> (
    WorkflowView,
    ActionView,
)
    decreases events.len(),
{
    if events.len() == 0 {
        start
    } else {
        run(start, events.drop_last()).0.next(events.last())
    }
}

/// Whether `start` is how one of the four operations begins on
/// `configuration`.
pub open spec fn starts(start: (WorkflowView, ActionView), configuration: ConfigurationView) -> bool {
    ||| start == apply_start(configuration)
    ||| start == update_start(configuration)
    ||| start == setup_start(configuration)
    ||| start == validate_start(configuration)
}

/// Whether the operator, whenever asked while the workflow took `events`
/// whether to adopt the newest commit, said no.
pub open spec fn never_adopts(start: (WorkflowView, ActionView), events: Seq<EventView>) -> bool {
    forall|i: int|
        0 <= i < events.len() && (#[trigger] run(start, events.take(i))).0.phase
            == Phase::ConfirmLatest ==> events[i] != EventView::Answer(true)
}

impl WorkflowView {
    /// What every operation keeps of the manifest `given` that it began
    /// on.
    ///
    /// Apply and validate change nothing. An update changes the branch and
    /// the pinned commit at most. Init keeps a project name and a pinned
    /// commit that were set, and keeps the file mappings that were there, in
    /// their order, before the ones that it adds; and the source of each one
    /// that it adds names nothing outside the secrets repository.
    pub open spec fn keeps(self, given: ConfigurationView) -> bool {
        let now = self.configuration;
        match self.operation {
            Operation::Apply | Operation::Validate => now == given,
            Operation::Update => {
                &&& now.project_name == given.project_name
                &&& now.files_to_copy == given.files_to_copy
            },
            Operation::Init => {
                &&& !given.needs_project_name() ==> now.project_name == given.project_name
                &&& !given.needs_pinned_hash() ==> now.pinned_hash == given.pinned_hash
                &&& given.files_to_copy.is_prefix_of(now.files_to_copy)
                &&& self.phase == Phase::ProjectName && self.outcome is None
                    ==> given.needs_project_name()
                &&& self.phase == Phase::PinnedHash && self.outcome is None
                    ==> now.needs_pinned_hash()
                &&& forall|i: int|
                    given.files_to_copy.len() <= i < now.files_to_copy.len() ==> stays_under_root(
                        (#[trigger] now.files_to_copy[i]).source,
                    )
            },
        }
    }

    /// What holds of an update in which the newest commit has not been
    /// adopted: the pinned commit is the one of the manifest `given`, and
    /// the update is not on its way to another.
    pub open spec fn pinned_as(self, given: ConfigurationView) -> bool {
        &&& self.operation == Operation::Update
        &&& self.configuration.pinned_hash == given.pinned_hash
        &&& self.phase != Phase::LatestHash
        &&& self.phase != Phase::CheckoutLatest
    }
}

/// One step keeps what [`WorkflowView::keeps`] says.
pub proof fn lemma_step_keeps_manifest(
    workflow: WorkflowView,
    event: EventView,
    given: ConfigurationView,
)
    requires
        workflow.wf(),
        workflow.keeps(given),
    ensures
        workflow.next(event).0.wf(),
        workflow.next(event).0.operation == workflow.operation,
        workflow.next(event).0.keeps(given),
{
}

/// Every run keeps of the manifest what [`WorkflowView::keeps`] says.
///
/// Take any of the four operations on any manifest and any events at all.
/// Apply and validate leave the manifest as it was. An update leaves the
/// project name and the file mappings as they were. Init leaves a project
/// name that was set and a pinned commit that was set as they were, and only
/// adds file mappings after those that were there, each with a source that
/// stays under the root of the secrets repository.
pub proof fn lemma_run_keeps_manifest(
    start: (WorkflowView, ActionView),
    configuration: ConfigurationView,
    events: Seq<EventView>,
)
    requires
        starts(start, configuration),
    ensures
        run(start, events).0.wf(),
        run(start, events).0.operation == start.0.operation,
        run(start, events).0.keeps(configuration),
    decreases events.len(),
{
    if events.len() > 0 {
        lemma_run_keeps_manifest(start, configuration, events.drop_last());
        lemma_step_keeps_manifest(run(start, events.drop_last()).0, events.last(), configuration);
    }
}

/// Init adds no mapping whose source leaves the secrets repository.
///
/// Take an init on any manifest and any events at all: whatever the operator
/// types, and whatever is answered when the repository is looked for and
/// when it is asked what exists. Every mapping that the manifest then has
/// beyond those that it began with has a source that is relative and that,
/// read from the root of the repository, never steps above it.
pub proof fn lemma_init_adds_only_sources_under_root(
    configuration: ConfigurationView,
    events: Seq<EventView>,
    added: int,
)
    requires
        configuration.files_to_copy.len() <= added < run(
            setup_start(configuration),
            events,
        ).0.configuration.files_to_copy.len(),
    ensures
        stays_under_root(
            run(setup_start(configuration), events).0.configuration.files_to_copy[added].source,
        ),
{
    lemma_run_keeps_manifest(setup_start(configuration), configuration, events);
}

/// No step adds a mapping whose source leaves the secrets repository.
///
/// Whatever state a workflow is in and whatever event it takes, the file
/// mappings of the manifest are afterwards what they were, or what they were
/// and one more at the end. One more comes only in an init, as the answer to
/// the question for the destination, which is put only after the file system
/// has said that the source exists; and its source is relative and, read
/// from the root of the repository, never steps above it.
pub proof fn lemma_step_adds_only_sources_under_root(workflow: WorkflowView, event: EventView)
    requires
        workflow.wf(),
    ensures
        ({
            let before = workflow.configuration.files_to_copy;
            let after = workflow.next(event).0.configuration.files_to_copy;
            ||| after == before
            ||| {
                &&& workflow.operation == Operation::Init
                &&& workflow.phase == Phase::AddFileDestination
                &&& event matches EventView::Text(destination)
                &&& after == before.push(FileView { source: workflow.source, destination })
                &&& stays_under_root(workflow.source)
            }
        }),
        workflow.next(event).0.phase == Phase::AddFileDestination && workflow.phase
            != Phase::AddFileDestination ==> {
            &&& workflow.phase == Phase::AddFileExists
            &&& event == EventView::Answer(true)
        },
        workflow.next(event).0.phase == Phase::AddFileExists && workflow.phase
            != Phase::AddFileExists ==> {
            &&& workflow.phase == Phase::AddFileRoot
            &&& event matches EventView::Text(root)
            &&& workflow.next(event).1 == ActionView::PathExists {
                path: joined(root, workflow.source),
            }
        },
{
}

/// A source that leaves the secrets repository is dropped at once.
///
/// Where the operator, asked for the source of a mapping, types an absolute
/// path, or one that steps above the root of the repository on its way, the
/// next thing is the question whether to add a mapping: the repository is not
/// looked for, nothing is asked of the file system, no destination is asked
/// for, and the manifest stays as it is. A source that steps up only as far
/// as it has stepped down, such as `a/../b`, is no such source.
pub proof fn lemma_source_outside_root_is_dropped(workflow: WorkflowView, source: Seq<char>)
    requires
        workflow.wf(),
        workflow.outcome is None,
        workflow.phase == Phase::AddFileSource,
        !stays_under_root(source),
    ensures
        workflow.next(EventView::Text(source)) == workflow.ask_for_more(),
        workflow.next(EventView::Text(source)).0.configuration == workflow.configuration,
        workflow.next(EventView::Text(source)).1 == (ActionView::Confirm {
            question: workflow.question,
        }),
{
}

/// An update in which the operator never agrees to adopt the newest commit
/// leaves the pinned commit as it was, whatever else happens.
pub proof fn lemma_pinned_hash_moves_only_by_adoption(
    configuration: ConfigurationView,
    events: Seq<EventView>,
)
    requires
        never_adopts(update_start(configuration), events),
    ensures
        run(update_start(configuration), events).0.pinned_as(configuration),
        run(update_start(configuration), events).0.configuration.pinned_hash
            == configuration.pinned_hash,
    decreases events.len(),
{
    let start = update_start(configuration);
    if events.len() > 0 {
        let last = events.len() - 1;
        let earlier = events.drop_last();
        assert(never_adopts(start, earlier)) by {
            assert forall|i: int| 0 <= i < earlier.len() implies earlier.take(i) == events.take(
                i,
            ) by {}
        }
        lemma_pinned_hash_moves_only_by_adoption(configuration, earlier);
        lemma_run_keeps_manifest(start, configuration, earlier);
        assert(events.take(last) == earlier);
        assert(run(start, events.take(last)).0.phase == Phase::ConfirmLatest ==> events[last]
            != EventView::Answer(true));
    }
}

/// A workflow that has ended takes no further step: whatever events follow,
/// its state stays as it is, and the only thing it asks for is to finish.
pub proof fn lemma_ended_workflow_stays(
    workflow: WorkflowView,
    action: ActionView,
    events: Seq<EventView>,
)
    requires
        workflow.outcome is Some,
        action == (ActionView::Finish { outcome: workflow.outcome->0 }),
    ensures
        run((workflow, action), events) == (workflow, action),
    decreases events.len(),
{
    if events.len() > 0 {
        lemma_ended_workflow_stays(workflow, action, events.drop_last());
    }
}

/// A file is written only with what the encryption provider has just handed
/// back: the decrypted bytes to a mapping's destination, the encrypted bytes
/// beside it.
pub proof fn lemma_writes_follow_the_provider(workflow: WorkflowView, event: EventView)
    requires
        workflow.wf(),
    ensures
        workflow.next(event).1 matches ActionView::WriteFile { path, contents } ==> {
            &&& workflow.outcome is None
            &&& event == EventView::Contents(contents)
            &&& workflow.phase == Phase::ApplyDecrypt || workflow.phase == Phase::Encrypt
            &&& workflow.phase == Phase::ApplyDecrypt ==> path == workflow.mapping().destination
            &&& workflow.phase == Phase::Encrypt ==> path == encrypted_path(
                workflow.mapping().destination,
            )
        },
{
}

/// A mapping whose encrypted file is missing ends the decrypting there:
/// the workflow fails with `EncryptedFileMissing`, and neither that step nor
/// any later one asks for a file to be written.
pub proof fn lemma_missing_encrypted_file_ends_apply(workflow: WorkflowView, later: Seq<EventView>)
    requires
        workflow.wf(),
        workflow.outcome is None,
        workflow.phase == Phase::ApplyRead,
    ensures
        workflow.next(EventView::Missing).0.outcome == Some(
            Outcome::Failed(ConfigureError::EncryptedFileMissing),
        ),
        run(workflow.next(EventView::Missing), later).1 == (ActionView::Finish {
            outcome: Outcome::Failed(ConfigureError::EncryptedFileMissing),
        }),
        run(workflow.next(EventView::Missing), later).0.configuration == workflow.configuration,
{
    let ended = workflow.next(EventView::Missing);
    lemma_ended_workflow_stays(ended.0, ended.1, later);
}

/// The bytes of a secret are passed on as they come.
///
/// In the encrypting pass, what was read for a mapping goes to the provider
/// with the key that was read, and what the provider hands back is written
/// beside the mapping's destination. In the decrypting pass, what was read
/// from there goes to the provider with the key, and what the provider hands
/// back is written to the destination. So with a provider whose `decrypt`
/// undoes its `encrypt` under the same key, the decrypting pass writes the
/// very bytes that the encrypting pass read: `plaintext`, whatever it holds,
/// be it nothing at all.
pub proof fn lemma_passes_give_the_plaintext_back(
    encrypting: WorkflowView,
    decrypting: WorkflowView,
    plaintext: Seq<u8>,
    key: Seq<u8>,
    encrypt: spec_fn(Seq<u8>, Seq<u8>) -> Seq<u8>,
    decrypt: spec_fn(Seq<u8>, Seq<u8>) -> Seq<u8>,
)
    requires
        encrypting.wf(),
        encrypting.outcome is None,
        encrypting.phase == Phase::EncryptRead,
        decrypting.wf(),
        decrypting.outcome is None,
        decrypting.phase == Phase::ApplyRead,
        decrypting.mapping() == encrypting.mapping(),
        decrypt(encrypt(plaintext, key), key) == plaintext,
    ensures
        ({
            let sealed = encrypt(plaintext, key);
            let read = encrypting.next(EventView::Contents(plaintext));
            let keyed = read.0.next(EventView::Contents(key));
            let written = keyed.0.next(EventView::Contents(sealed));
            let read_back = decrypting.next(EventView::Contents(sealed));
            let keyed_back = read_back.0.next(EventView::Contents(key));
            let restored = keyed_back.0.next(EventView::Contents(decrypt(sealed, key)));
            let destination = encrypting.mapping().destination;
            &&& read.1 == ActionView::ReadKey { project_name: encrypting.configuration.project_name }
            &&& keyed.1 == ActionView::Encrypt { plaintext, key }
            &&& written.1 == ActionView::WriteFile {
                path: encrypted_path(destination),
                contents: sealed,
            }
            &&& decrypting.apply_from_cursor().1 == ActionView::ReadEncrypted {
                path: encrypted_path(destination),
            }
            &&& keyed_back.1 == ActionView::Decrypt { ciphertext: sealed, key }
            &&& restored.1 == ActionView::WriteFile { path: destination, contents: plaintext }
        }),
{
}

/// The path that `action` asks to write to, if it asks for a write.
pub open spec fn write_of(action: ActionView) -> Seq<Seq<char>> {
    match action {
        ActionView::WriteFile { path, .. } => seq![path],
        _ => Seq::empty(),
    }
}

/// The paths that a workflow which began as `start` has asked to write to
/// while it took `events`, in the order of the asking.
pub open spec fn written(start: (WorkflowView, ActionView), events: Seq<EventView>) -> Seq<
    Seq<char>,
>
    decreases events.len(),
{
    if events.len() == 0 {
        write_of(start.1)
    } else {
        written(start, events.drop_last()) + write_of(run(start, events).1)
    }
}

/// The destinations of the file mappings, in the manifest's order.
pub open spec fn destinations(configuration: ConfigurationView) -> Seq<Seq<char>> {
    configuration.files_to_copy.map_values(|file: FileView| file.destination)
}

/// The paths of the encrypted files of the file mappings, in the manifest's
/// order.
pub open spec fn encrypted_destinations(configuration: ConfigurationView) -> Seq<Seq<char>> {
    configuration.files_to_copy.map_values(|file: FileView| encrypted_path(file.destination))
}

impl WorkflowView {
    /// The writes that the pass under way has asked for: one for each
    /// mapping before the cursor, and one more where the write for the
    /// mapping at the cursor is pending.
    pub open spec fn pass_writes(self, targets: Seq<Seq<char>>, pending: Phase) -> Seq<Seq<char>> {
        if self.phase == pending && self.has_mapping() {
            targets.take(self.cursor + 1)
        } else {
            targets.take(self.cursor)
        }
    }

    /// What holds of the writes `so_far` that an apply or an update has
    /// asked for.
    ///
    /// While files are encrypted, the encrypted files of the mappings before
    /// the cursor have been written, in order. From the rollback on, those of
    /// all mappings have been. While files are decrypted, the destinations of
    /// the mappings before the cursor have been written after that, in order.
    /// A workflow that has completed has written all of them; one that has
    /// not come to the files has written nothing.
    pub open spec fn has_written(self, so_far: Seq<Seq<char>>) -> bool {
        let sealed = encrypted_destinations(self.configuration);
        let opened = destinations(self.configuration);
        let before = if self.operation == Operation::Update {
            sealed
        } else {
            Seq::empty()
        };
        &&& 0 <= self.cursor <= self.configuration.files_to_copy.len()
        &&& self.failure != Some(Outcome::Completed)
        &&& if self.phase.is_encrypt() {
            so_far == self.pass_writes(sealed, Phase::EncryptWrite)
        } else if self.phase.is_apply() {
            &&& so_far == before + self.pass_writes(opened, Phase::ApplyWrite)
            &&& self.outcome == Some(Outcome::Completed) ==> so_far == before + opened
        } else if self.phase == Phase::Rollback {
            &&& self.failure is None ==> so_far == sealed
            &&& self.outcome == Some(Outcome::Completed) ==> so_far == sealed + opened
        } else {
            &&& so_far == Seq::<Seq<char>>::empty()
            &&& self.outcome != Some(Outcome::Completed)
        }
    }
}

/// One step keeps what [`WorkflowView::has_written`] says, while the
/// manifest's file mappings stay as they are.
pub proof fn lemma_step_keeps_writes(
    workflow: WorkflowView,
    event: EventView,
    so_far: Seq<Seq<char>>,
)
    requires
        workflow.wf(),
        workflow.operation.decrypts(),
        workflow.has_written(so_far),
    ensures
        workflow.next(event).0.configuration.files_to_copy
            == workflow.configuration.files_to_copy,
        workflow.next(event).0.has_written(so_far + write_of(workflow.next(event).1)),
{
    let sealed = encrypted_destinations(workflow.configuration);
    let opened = destinations(workflow.configuration);
    let count = workflow.configuration.files_to_copy.len() as int;
    let before = if workflow.operation == Operation::Update {
        sealed
    } else {
        Seq::empty()
    };
    assert(sealed.take(count) == sealed);
    assert(opened.take(count) == opened);
    assert(sealed.take(0) == Seq::<Seq<char>>::empty());
    if workflow.has_mapping() {
        let at = workflow.cursor;
        assert(sealed.take(at) + seq![sealed[at]] == sealed.take(at + 1));
        assert((before + opened.take(at)) + seq![opened[at]] == before + opened.take(at + 1));
    }
}

/// Every file mapping is written, in the manifest's order.
///
/// Take an apply or an update on any manifest and any events at all. If the
/// operation completes, the writes that it has asked for are these and no
/// others: in an update first the encrypted file of each mapping, in the
/// order of the mappings; then, in an update as in an apply, the destination
/// of each mapping, in the same order.
pub proof fn lemma_every_mapping_is_written(
    start: (WorkflowView, ActionView),
    configuration: ConfigurationView,
    events: Seq<EventView>,
)
    requires
        start == apply_start(configuration) || start == update_start(configuration),
    ensures
        run(start, events).0.has_written(written(start, events)),
        run(start, events).0.configuration.files_to_copy == configuration.files_to_copy,
        run(start, events).0.outcome == Some(Outcome::Completed) ==> written(start, events) == if start
            == update_start(configuration) {
            encrypted_destinations(configuration) + destinations(configuration)
        } else {
            destinations(configuration)
        },
    decreases events.len(),
{
    if events.len() > 0 {
        let earlier = events.drop_last();
        lemma_every_mapping_is_written(start, configuration, earlier);
        lemma_run_keeps_manifest(start, configuration, earlier);
        lemma_step_keeps_writes(run(start, earlier).0, events.last(), written(start, earlier));
    }
}

/// What `action` asks to read of the secrets: the source of a secret in the
/// repository, or the path of an encrypted file in the project.
pub open spec fn read_of(action: ActionView) -> Seq<Seq<char>> {
    match action {
        ActionView::ReadSecret { source } => seq![source],
        ActionView::ReadEncrypted { path } => seq![path],
        _ => Seq::empty(),
    }
}

/// The secrets and the encrypted files that a workflow which began as
/// `start` has asked to read while it took `events`, in the order of the
/// asking.
pub open spec fn read(start: (WorkflowView, ActionView), events: Seq<EventView>) -> Seq<Seq<char>>
    decreases events.len(),
{
    if events.len() == 0 {
        read_of(start.1)
    } else {
        read(start, events.drop_last()) + read_of(run(start, events).1)
    }
}

/// The sources of the file mappings, in the manifest's order.
pub open spec fn sources(configuration: ConfigurationView) -> Seq<Seq<char>> {
    configuration.files_to_copy.map_values(|file: FileView| file.source)
}

impl WorkflowView {
    /// The reads that the pass under way has asked for: one for each mapping
    /// up to the one at the cursor.
    pub open spec fn pass_reads(self, targets: Seq<Seq<char>>) -> Seq<Seq<char>> {
        if self.has_mapping() {
            targets.take(self.cursor + 1)
        } else {
            targets.take(self.cursor)
        }
    }

    /// What holds of the reads `so_far` that an apply or an update has asked
    /// for.
    ///
    /// While files are encrypted, the secrets of the mappings up to the
    /// cursor have been read, in order. From the rollback on, those of all
    /// mappings have been. While files are decrypted, the encrypted files of
    /// the mappings up to the cursor have been read after that, in order. A
    /// workflow that has completed has read all of them; one that has not
    /// come to the files has read nothing.
    pub open spec fn has_read(self, so_far: Seq<Seq<char>>) -> bool {
        let secrets = sources(self.configuration);
        let sealed = encrypted_destinations(self.configuration);
        let before = if self.operation == Operation::Update {
            secrets
        } else {
            Seq::empty()
        };
        &&& 0 <= self.cursor <= self.configuration.files_to_copy.len()
        &&& self.failure != Some(Outcome::Completed)
        &&& if self.phase.is_encrypt() {
            so_far == self.pass_reads(secrets) && self.outcome is None
        } else if self.phase.is_apply() {
            &&& so_far == before + self.pass_reads(sealed)
            &&& self.outcome == Some(Outcome::Completed) ==> so_far == before + sealed
        } else if self.phase == Phase::Rollback {
            &&& self.failure is None ==> so_far == secrets
            &&& self.outcome == Some(Outcome::Completed) ==> so_far == secrets + sealed
        } else {
            &&& so_far == Seq::<Seq<char>>::empty()
            &&& self.outcome != Some(Outcome::Completed)
        }
    }
}

/// One step keeps what [`WorkflowView::has_read`] says, while the manifest's
/// file mappings stay as they are.
pub proof fn lemma_step_keeps_reads(
    workflow: WorkflowView,
    event: EventView,
    so_far: Seq<Seq<char>>,
)
    requires
        workflow.wf(),
        workflow.operation.decrypts(),
        workflow.has_read(so_far),
    ensures
        workflow.next(event).0.has_read(so_far + read_of(workflow.next(event).1)),
{
    let secrets = sources(workflow.configuration);
    let sealed = encrypted_destinations(workflow.configuration);
    let count = workflow.configuration.files_to_copy.len() as int;
    let before = if workflow.operation == Operation::Update {
        secrets
    } else {
        Seq::empty()
    };
    let nothing = Seq::<Seq<char>>::empty();
    assert(secrets.take(count) == secrets);
    assert(sealed.take(count) == sealed);
    assert(before + nothing == before);
    assert(secrets.len() > 0 ==> seq![secrets[0]] == secrets.take(1));
    assert(sealed.len() > 0 ==> before + seq![sealed[0]] == before + sealed.take(1));
    if workflow.cursor + 1 < count {
        let at = workflow.cursor + 1;
        assert(secrets.take(at) + seq![secrets[at]] == secrets.take(at + 1));
        assert((before + sealed.take(at)) + seq![sealed[at]] == before + sealed.take(at + 1));
    }
}

/// The secret of every file mapping is read, in the manifest's order.
///
/// Take an apply or an update on any manifest and any events at all. If the
/// operation completes, the reads of secrets that it has asked for are these
/// and no others: in an update first the source of each mapping, from the
/// repository, in the order of the mappings; then, in an update as in an
/// apply, the encrypted file of each mapping, in the same order.
pub proof fn lemma_every_mapping_is_read(
    start: (WorkflowView, ActionView),
    configuration: ConfigurationView,
    events: Seq<EventView>,
)
    requires
        start == apply_start(configuration) || start == update_start(configuration),
    ensures
        run(start, events).0.has_read(read(start, events)),
        run(start, events).0.outcome == Some(Outcome::Completed) ==> read(start, events) == if start
            == update_start(configuration) {
            sources(configuration) + encrypted_destinations(configuration)
        } else {
            encrypted_destinations(configuration)
        },
    decreases events.len(),
{
    let sealed = encrypted_destinations(configuration);
    if events.len() == 0 {
        assert(sealed.len() > 0 ==> seq![sealed[0]] == sealed.take(1));
    } else {
        let earlier = events.drop_last();
        lemma_every_mapping_is_read(start, configuration, earlier);
        lemma_run_keeps_manifest(start, configuration, earlier);
        lemma_step_keeps_reads(run(start, earlier).0, events.last(), read(start, earlier));
    }
}

impl ActionView {
    /// Whether the action is work of the encrypting pass: a secret is read
    /// from the repository, or handed to the provider to be encrypted.
    pub open spec fn seals(self) -> bool {
        self is ReadSecret || self is Encrypt
    }

    /// Whether the action is work of the decrypting pass: an encrypted file
    /// is read, or handed to the provider to be decrypted.
    pub open spec fn opens(self) -> bool {
        self is ReadEncrypted || self is Decrypt
    }

    /// Whether the action reads, writes, encrypts or decrypts a secret.
    pub open spec fn touches_files(self) -> bool {
        self.seals() || self.opens() || self is WriteFile
    }
}

/// The actions that a workflow which began as `start` has asked for while it
/// took `events`, the first one included, in the order of the asking.
pub open spec fn asked(start: (WorkflowView, ActionView), events: Seq<EventView>) -> Seq<
    ActionView,
>
    decreases events.len(),
{
    if events.len() == 0 {
        seq![start.1]
    } else {
        asked(start, events.drop_last()).push(run(start, events).1)
    }
}

/// Whether none of the first `count` of `actions` touches a secret.
pub open spec fn untouched_before(actions: Seq<ActionView>, count: int) -> bool {
    forall|i: int| 0 <= i < count && i < actions.len() ==> !(#[trigger] actions[i]).touches_files()
}

/// Whether none of `actions` is work of the decrypting pass.
pub open spec fn unopened(actions: Seq<ActionView>) -> bool {
    forall|i: int| 0 <= i < actions.len() ==> !(#[trigger] actions[i]).opens()
}

/// Whether `actions` ask for `configuration` to be persisted before they
/// touch any secret.
pub open spec fn persisted_first(actions: Seq<ActionView>, configuration: ConfigurationView) -> bool {
    exists|at: int|
        0 <= at < actions.len() && #[trigger] actions[at] == (ActionView::SaveConfiguration {
            configuration,
        }) && untouched_before(actions, at)
}

/// Whether the checkout of `branch` at `hash` that `actions[at]` asks for
/// parts the two passes: no work of the decrypting pass before it, none of
/// the encrypting pass after it.
pub open spec fn parts_the_passes(
    actions: Seq<ActionView>,
    at: int,
    branch: Seq<char>,
    hash: Seq<char>,
) -> bool {
    &&& 0 <= at < actions.len()
    &&& actions[at] == ActionView::CheckoutBranchAtRevision { branch, hash }
    &&& forall|i: int| 0 <= i < at ==> !(#[trigger] actions[i]).opens()
    &&& forall|i: int| at < i < actions.len() ==> !(#[trigger] actions[i]).seals()
}

/// Whether `actions` ask for the checkout of `branch` at `hash` between the
/// encrypting and the decrypting.
pub open spec fn rolled_back_between(
    actions: Seq<ActionView>,
    branch: Seq<char>,
    hash: Seq<char>,
) -> bool {
    exists|at: int| #[trigger] parts_the_passes(actions, at, branch, hash)
}

impl WorkflowView {
    /// What holds of the actions `so_far` that an update has asked for.
    ///
    /// Until the manifest is persisted no secret is touched. From then on
    /// the manifest has been asked to be persisted, as the update still holds
    /// it, before anything else was done with a secret. While files are
    /// encrypted nothing is decrypted. While files are decrypted, the
    /// checkout that puts the repository back has been asked for, after the
    /// last work of the encrypting pass and before the first of the
    /// decrypting pass.
    pub open spec fn in_order(self, so_far: Seq<ActionView>) -> bool {
        let persisted = persisted_first(so_far, self.configuration);
        let rolled_back = rolled_back_between(so_far, self.starting_branch, self.starting_ref);
        &&& so_far.len() > 0
        &&& self.operation == Operation::Update
        &&& self.failure != Some(Outcome::Completed)
        &&& if self.phase.is_encrypt() {
            persisted && unopened(so_far) && self.outcome is None
        } else if self.phase.is_apply() {
            persisted && rolled_back
        } else if self.phase == Phase::Rollback {
            &&& !so_far.last().touches_files()
            &&& self.outcome == Some(Outcome::Completed) ==> self.failure is None
            &&& self.failure is None ==> persisted && unopened(so_far)
            &&& self.failure is None && self.outcome is None ==> so_far.last()
                == ActionView::CheckoutBranchAtRevision {
                branch: self.starting_branch,
                hash: self.starting_ref,
            }
            &&& self.outcome == Some(Outcome::Completed) ==> rolled_back
        } else {
            &&& untouched_before(so_far, so_far.len() as int)
            &&& self.outcome != Some(Outcome::Completed)
            &&& self.phase == Phase::Save && self.outcome is None ==> so_far.last()
                == ActionView::SaveConfiguration { configuration: self.configuration }
        }
    }
}

/// One more action leaves the manifest persisted first.
proof fn lemma_persisted_first_grows(
    actions: Seq<ActionView>,
    configuration: ConfigurationView,
    action: ActionView,
)
    requires
        persisted_first(actions, configuration),
    ensures
        persisted_first(actions.push(action), configuration),
{
    let at = choose|at: int|
        0 <= at < actions.len() && #[trigger] actions[at] == (ActionView::SaveConfiguration {
            configuration,
        }) && untouched_before(actions, at);
    let longer = actions.push(action);
    assert(longer[at] == actions[at]);
    assert(untouched_before(longer, at)) by {
        assert forall|i: int| 0 <= i < at implies #[trigger] longer[i] == actions[i] by {}
    }
}

/// One more action that is no work of the encrypting pass leaves the
/// rollback between the passes.
proof fn lemma_rolled_back_between_grows(
    actions: Seq<ActionView>,
    branch: Seq<char>,
    hash: Seq<char>,
    action: ActionView,
)
    requires
        rolled_back_between(actions, branch, hash),
        !action.seals(),
    ensures
        rolled_back_between(actions.push(action), branch, hash),
{
    let at = choose|at: int| #[trigger] parts_the_passes(actions, at, branch, hash);
    let longer = actions.push(action);
    assert forall|i: int| 0 <= i < actions.len() implies #[trigger] longer[i] == actions[i] by {}
    assert(parts_the_passes(longer, at, branch, hash));
}

/// One step keeps what [`WorkflowView::in_order`] says.
pub proof fn lemma_step_keeps_order(
    workflow: WorkflowView,
    event: EventView,
    so_far: Seq<ActionView>,
)
    requires
        workflow.wf(),
        workflow.in_order(so_far),
    ensures
        workflow.next(event).0.in_order(so_far.push(workflow.next(event).1)),
{
    let next = workflow.next(event);
    let longer = so_far.push(next.1);
    let last = so_far.len() as int - 1;
    assert forall|i: int| 0 <= i < so_far.len() implies #[trigger] longer[i] == so_far[i] by {}
    if persisted_first(so_far, workflow.configuration) {
        lemma_persisted_first_grows(so_far, workflow.configuration, next.1);
    }
    if rolled_back_between(so_far, workflow.starting_branch, workflow.starting_ref)
        && !next.1.seals() {
        lemma_rolled_back_between_grows(
            so_far,
            workflow.starting_branch,
            workflow.starting_ref,
            next.1,
        );
    }
    if workflow.outcome is None && workflow.phase == Phase::Rollback && workflow.failure is None {
        assert(parts_the_passes(longer, last, workflow.starting_branch, workflow.starting_ref));
    }
}

/// An update persists the manifest before it touches a secret, and puts the
/// repository back between encrypting and decrypting.
///
/// Take an update on any manifest and any events at all. Whenever the update
/// asks for a secret to be read, encrypted, decrypted or written, it has
/// asked before, and before anything of the kind, for the manifest to be
/// persisted, with the branch and the pinned commit that it now has.
/// Whenever it asks for an encrypted file to be read or decrypted, it has
/// asked for the checkout of what it noted at its start, after all reading
/// and encrypting of secrets and before any reading and decrypting of
/// encrypted files. An update that has completed has done both.
pub proof fn lemma_update_orders_its_effects(
    configuration: ConfigurationView,
    events: Seq<EventView>,
)
    ensures
        ({
            let start = update_start(configuration);
            let reached = run(start, events);
            let actions = asked(start, events);
            let persisted = persisted_first(actions, reached.0.configuration);
            let rolled_back = rolled_back_between(
                actions,
                reached.0.starting_branch,
                reached.0.starting_ref,
            );
            &&& reached.0.in_order(actions)
            &&& actions.last() == reached.1
            &&& reached.1.touches_files() ==> persisted
            &&& reached.1.opens() ==> rolled_back
            &&& reached.0.outcome == Some(Outcome::Completed) ==> persisted && rolled_back
        }),
    decreases events.len(),
{
    let start = update_start(configuration);
    if events.len() > 0 {
        let earlier = events.drop_last();
        lemma_update_orders_its_effects(configuration, earlier);
        lemma_run_keeps_manifest(start, configuration, earlier);
        lemma_step_keeps_order(run(start, earlier).0, events.last(), asked(start, earlier));
    }
    let actions = asked(start, events);
    assert(actions[actions.len() - 1] == run(start, events).1);
}

} // verus!
