//! The secrets repository as the workflows see it, and what they leave of it.
//!
//! The repository is a clone that other work shares, so an operation must
//! leave it on the branch and at the commit where it found it. This module
//! says what that means and proves it of every run.

use vstd::prelude::*;
use crate::configuration::ConfigurationView;
use crate::protocol::{ActionView, EventView, Outcome};
use crate::runs::{run, starts};
use crate::workflow::state::{Operation, Phase, WorkflowView};
use crate::workflow::update::update_start;

verus! {

/// What the secrets repository has checked out.
pub struct Checkout {
    pub branch: Seq<char>,
    pub hash: Seq<char>,
}

impl ActionView {
    /// Whether the action checks something out.
    pub open spec fn moves_checkout(self) -> bool {
        self is CheckoutBranch || self is CheckoutBranchAtRevision
    }

    /// Whether the action puts something to the operator.
    pub open spec fn asks_operator(self) -> bool {
        self is Confirm || self is Select || self is PromptText
    }
}

/// Whether a repository that has `before` checked out can answer `action`
/// with `event` and have `after` checked out from then on.
///
/// Asked for its branch or its commit, the repository names the one that is
/// checked out. A checkout that is acknowledged has taken place: of a branch
/// and a commit exactly, of a branch alone at whatever commit is its tip. A
/// checkout that is not acknowledged may have left anything behind. No other
/// action moves the checkout.
pub open spec fn answers(before: Checkout, action: ActionView, event: EventView, after: Checkout) -> bool {
    match action {
        ActionView::QueryCurrentBranch => {
            &&& after == before
            &&& event matches EventView::Text(branch) ==> branch == before.branch
        },
        ActionView::QueryCurrentHash => {
            &&& after == before
            &&& event matches EventView::Text(hash) ==> hash == before.hash
        },
        ActionView::CheckoutBranch { branch } => event is Acknowledged ==> after.branch == branch,
        ActionView::CheckoutBranchAtRevision { branch, hash } => event is Acknowledged ==> after
            == (Checkout { branch, hash }),
        _ => after == before,
    }
}

/// Whether `events` are answers that a repository can have given, one after
/// the other, to the actions of a workflow that began as `start`, while its
/// checkout went through `checkouts`.
pub open spec fn repository_run(
    start: (WorkflowView, ActionView),
    events: Seq<EventView>,
    checkouts: Seq<Checkout>,
) -> bool {
    &&& checkouts.len() == events.len() + 1
    &&& forall|i: int|
        0 <= i < events.len() ==> answers(
            checkouts[i],
            #[trigger] run(start, events.take(i)).1,
            events[i],
            checkouts[i + 1],
        )
}

/// Whether every checkout that the workflow asked for while it took `events`
/// was acknowledged.
pub open spec fn checkouts_acknowledged(
    start: (WorkflowView, ActionView),
    events: Seq<EventView>,
) -> bool {
    forall|i: int|
        0 <= i < events.len() && (#[trigger] run(start, events.take(i))).1.moves_checkout()
            ==> events[i] is Acknowledged
}

impl WorkflowView {
    /// Whether the update has noted `origin` as what to put back.
    pub open spec fn anchored_at(self, origin: Checkout) -> bool {
        self.starting_branch == origin.branch && self.starting_ref == origin.hash
    }

    /// Whether the distance check has noted `origin` as what to put back.
    pub open spec fn noted(self, origin: Checkout) -> bool {
        self.current_branch == origin.branch && self.current_hash == origin.hash
    }

    /// The manifest's branch at the manifest's pinned commit.
    pub open spec fn pinned(self) -> Checkout {
        Checkout { branch: self.configuration.branch, hash: self.configuration.pinned_hash }
    }

    /// Whether the update is at the secrets: between the persisting of the
    /// manifest and the end of the encrypting pass.
    pub open spec fn at_the_secrets(self) -> bool {
        self.outcome is None && (self.phase == Phase::Save || self.phase.is_encrypt())
    }

    /// What holds of an update that has adopted the newest commit, asks for
    /// `action`, and has the repository at `now`: while it is at the secrets,
    /// the repository has the manifest's branch checked out at the pinned
    /// commit and the pending action does not move that; once it is past
    /// them, it reads no more secrets from the repository.
    pub open spec fn holds_adopted(self, action: ActionView, now: Checkout) -> bool {
        &&& self.operation == Operation::Update
        &&& self.phase == Phase::Save || self.phase.is_encrypt() || self.phase == Phase::Rollback
            || self.phase.is_apply()
        &&& if self.at_the_secrets() {
            now == self.pinned() && !action.moves_checkout()
        } else {
            !(action is ReadSecret)
        }
    }

    /// What holds of a workflow that asks for `action` while the repository,
    /// found at `origin`, has `now` checked out.
    ///
    /// Outside an update the checkout is never moved. An update that has
    /// ended as completed or as declined has the checkout at `origin`, which
    /// is what it noted when it began. An update under way either has the
    /// checkout there, or knows `origin` and is bound to check it out again.
    /// While it is at the secrets, the checkout is at `origin` or at the
    /// pinned commit of the manifest's branch, and stays where it is.
    pub open spec fn settled(self, action: ActionView, origin: Checkout, now: Checkout) -> bool {
        if self.operation != Operation::Update {
            now == origin && !action.moves_checkout()
        } else if self.outcome is Some {
            &&& !action.moves_checkout()
            &&& self.outcome == Some(Outcome::Completed) || self.outcome == Some(Outcome::Declined)
                ==> now == origin && self.anchored_at(origin)
        } else {
            match self.phase {
                Phase::CaptureBranch => now == origin && action == ActionView::QueryCurrentBranch,
                Phase::CaptureHash => {
                    &&& now == origin
                    &&& action == ActionView::QueryCurrentHash
                    &&& self.starting_branch == origin.branch
                },
                Phase::DistanceBranch => {
                    &&& now == origin
                    &&& self.anchored_at(origin)
                    &&& action == ActionView::QueryCurrentBranch
                },
                Phase::DistanceHash => {
                    &&& now == origin
                    &&& self.anchored_at(origin)
                    &&& action == ActionView::QueryCurrentHash
                    &&& self.current_branch == origin.branch
                },
                Phase::DistanceCheckout | Phase::DistanceLatest | Phase::DistanceCount => {
                    &&& self.anchored_at(origin)
                    &&& self.noted(origin)
                    &&& !action.asks_operator()
                },
                Phase::DistanceRestore => {
                    &&& self.anchored_at(origin)
                    &&& action == ActionView::CheckoutBranchAtRevision {
                        branch: origin.branch,
                        hash: origin.hash,
                    }
                },
                Phase::CheckoutLatest => {
                    &&& now == origin
                    &&& self.anchored_at(origin)
                    &&& action == ActionView::CheckoutBranchAtRevision {
                        branch: self.configuration.branch,
                        hash: self.latest_hash,
                    }
                },
                Phase::Save
                | Phase::EncryptRead
                | Phase::EncryptKey
                | Phase::Encrypt
                | Phase::EncryptWrite => {
                    &&& self.anchored_at(origin)
                    &&& !action.asks_operator()
                    &&& !action.moves_checkout()
                    &&& now == origin || now == self.pinned()
                },
                Phase::Rollback => {
                    &&& self.anchored_at(origin)
                    &&& action == ActionView::CheckoutBranchAtRevision {
                        branch: origin.branch,
                        hash: origin.hash,
                    }
                },
                _ => {
                    &&& now == origin
                    &&& self.anchored_at(origin)
                    &&& !action.moves_checkout()
                },
            }
        }
    }
}

impl WorkflowView {
    /// [`WorkflowView::settled`], and more of a workflow that has ended: the
    /// repository has `origin` checked out, however the workflow ended.
    pub open spec fn restored_at(self, action: ActionView, origin: Checkout, now: Checkout) -> bool {
        &&& self.settled(action, origin, now)
        &&& self.outcome is Some ==> now == origin
    }
}

/// One step keeps a workflow settled: if the repository answers the pending
/// action, what [`WorkflowView::settled`] says holds again of the next state,
/// the next action and the checkout that the answer left.
pub proof fn lemma_step_keeps_settled(
    workflow: WorkflowView,
    action: ActionView,
    event: EventView,
    origin: Checkout,
    now: Checkout,
    after: Checkout,
)
    requires
        workflow.wf(),
        workflow.settled(action, origin, now),
        answers(now, action, event, after),
    ensures
        workflow.next(event).0.wf(),
        workflow.next(event).0.settled(workflow.next(event).1, origin, after),
{
}

/// A repository run without its last step is a repository run, and its last
/// step is an answer of the repository.
pub proof fn lemma_repository_run_shortens(
    start: (WorkflowView, ActionView),
    events: Seq<EventView>,
    checkouts: Seq<Checkout>,
)
    requires
        repository_run(start, events, checkouts),
        events.len() > 0,
    ensures
        repository_run(start, events.drop_last(), checkouts.drop_last()),
        checkouts.drop_last()[0] == checkouts[0],
        answers(
            checkouts.drop_last().last(),
            run(start, events.drop_last()).1,
            events.last(),
            checkouts.last(),
        ),
{
    let last = events.len() - 1;
    let earlier_events = events.drop_last();
    let earlier_checkouts = checkouts.drop_last();
    assert forall|i: int| 0 <= i < earlier_events.len() implies answers(
        earlier_checkouts[i],
        #[trigger] run(start, earlier_events.take(i)).1,
        earlier_events[i],
        earlier_checkouts[i + 1],
    ) by {
        assert(earlier_events.take(i) == events.take(i));
    }
    assert(events.take(last) == earlier_events);
    assert(answers(
        checkouts[last],
        run(start, events.take(last)).1,
        events[last],
        checkouts[last + 1],
    ));
}

/// Where every checkout was acknowledged, every checkout before the last
/// step was, and so was the one that the last step answers, if it answers
/// one.
pub proof fn lemma_checkouts_acknowledged_shortens(
    start: (WorkflowView, ActionView),
    events: Seq<EventView>,
)
    requires
        checkouts_acknowledged(start, events),
        events.len() > 0,
    ensures
        checkouts_acknowledged(start, events.drop_last()),
        run(start, events.drop_last()).1.moves_checkout() ==> events.last() is Acknowledged,
{
    let last = events.len() - 1;
    let earlier = events.drop_last();
    assert forall|i: int|
        0 <= i < earlier.len() && (#[trigger] run(
            start,
            earlier.take(i),
        )).1.moves_checkout() implies earlier[i] is Acknowledged by {
        assert(earlier.take(i) == events.take(i));
    }
    assert(events.take(last) == earlier);
    assert(run(start, events.take(last)).1.moves_checkout() ==> events[last] is Acknowledged);
}

/// What [`WorkflowView::settled`] says holds of every run: of the state that
/// a workflow has reached once it has taken `events`, the action that it then
/// asks for, the checkout that the repository began with and the one that it
/// has now.
pub proof fn lemma_run_stays_settled(
    start: (WorkflowView, ActionView),
    configuration: ConfigurationView,
    events: Seq<EventView>,
    checkouts: Seq<Checkout>,
)
    requires
        starts(start, configuration),
        repository_run(start, events, checkouts),
    ensures
        run(start, events).0.wf(),
        run(start, events).0.operation == start.0.operation,
        run(start, events).0.settled(run(start, events).1, checkouts[0], checkouts.last()),
    decreases events.len(),
{
    if events.len() > 0 {
        let earlier_events = events.drop_last();
        let earlier_checkouts = checkouts.drop_last();
        lemma_repository_run_shortens(start, events, checkouts);
        lemma_run_stays_settled(start, configuration, earlier_events, earlier_checkouts);
        lemma_step_keeps_settled(
            run(start, earlier_events).0,
            run(start, earlier_events).1,
            events.last(),
            checkouts[0],
            earlier_checkouts.last(),
            checkouts.last(),
        );
    }
}

/// An operation leaves the secrets repository as it found it.
///
/// Take any of the four operations on any manifest, and any answers that its
/// actions can get, whatever the operator decides where asked. Apply, init and
/// validate never move the checkout. An update that runs to its end, or that
/// the operator ends by declining, leaves checked out the branch and the
/// commit that were checked out when it began, and these are the branch and
/// the commit that it noted at its first two steps. Nothing is said here of an
/// update that ends in a failure.
pub proof fn lemma_checkout_is_restored(
    start: (WorkflowView, ActionView),
    configuration: ConfigurationView,
    events: Seq<EventView>,
    checkouts: Seq<Checkout>,
)
    requires
        starts(start, configuration),
        repository_run(start, events, checkouts),
    ensures
        start.0.operation != Operation::Update ==> checkouts.last() == checkouts[0],
        run(start, events).0.outcome == Some(Outcome::Completed) ==> checkouts.last()
            == checkouts[0],
        run(start, events).0.outcome == Some(Outcome::Declined) ==> checkouts.last()
            == checkouts[0],
        start == update_start(configuration) && (run(start, events).0.outcome == Some(
            Outcome::Completed,
        ) || run(start, events).0.outcome == Some(Outcome::Declined)) ==> checkouts.last()
            == (Checkout {
            branch: run(start, events).0.starting_branch,
            hash: run(start, events).0.starting_ref,
        }),
{
    lemma_run_stays_settled(start, configuration, events, checkouts);
}

/// One step keeps what [`WorkflowView::restored_at`] says, where the pending
/// action is not a checkout that goes unacknowledged.
pub proof fn lemma_step_keeps_restored(
    workflow: WorkflowView,
    action: ActionView,
    event: EventView,
    origin: Checkout,
    now: Checkout,
    after: Checkout,
)
    requires
        workflow.wf(),
        workflow.restored_at(action, origin, now),
        answers(now, action, event, after),
        action.moves_checkout() ==> event is Acknowledged,
    ensures
        workflow.next(event).0.restored_at(workflow.next(event).1, origin, after),
{
}

/// The operator is never asked anything while the checkout is moved.
///
/// Take any of the four operations on any manifest, and any answers that its
/// actions can get. Whenever the workflow puts a question to the operator,
/// the secrets repository has checked out the branch and the commit that it
/// had when the operation began: so an operator who declines, or who walks
/// away, leaves the repository as it was found.
pub proof fn lemma_operator_is_asked_at_origin(
    start: (WorkflowView, ActionView),
    configuration: ConfigurationView,
    events: Seq<EventView>,
    checkouts: Seq<Checkout>,
)
    requires
        starts(start, configuration),
        repository_run(start, events, checkouts),
    ensures
        run(start, events).1.asks_operator() ==> checkouts.last() == checkouts[0],
{
    lemma_run_stays_settled(start, configuration, events, checkouts);
}

/// While every checkout that is asked for is acknowledged, an update cannot
/// end with the secrets repository anywhere but where it found it.
///
/// Take an update on any manifest and any answers that its actions can get.
/// If each checkout that it asked for was acknowledged, then once the update
/// has ended, be it completed, declined, failed or rejected, the repository
/// has checked out the branch and the commit that it had when the update
/// began.
pub proof fn lemma_update_ends_where_it_began(
    configuration: ConfigurationView,
    events: Seq<EventView>,
    checkouts: Seq<Checkout>,
)
    requires
        repository_run(update_start(configuration), events, checkouts),
        checkouts_acknowledged(update_start(configuration), events),
    ensures
        run(update_start(configuration), events).0.outcome is Some ==> checkouts.last()
            == checkouts[0],
        run(update_start(configuration), events).0.restored_at(
            run(update_start(configuration), events).1,
            checkouts[0],
            checkouts.last(),
        ),
    decreases events.len(),
{
    let start = update_start(configuration);
    if events.len() > 0 {
        let earlier_events = events.drop_last();
        let earlier_checkouts = checkouts.drop_last();
        lemma_repository_run_shortens(start, events, checkouts);
        lemma_checkouts_acknowledged_shortens(start, events);
        lemma_update_ends_where_it_began(configuration, earlier_events, earlier_checkouts);
        lemma_run_stays_settled(start, configuration, earlier_events, earlier_checkouts);
        lemma_step_keeps_restored(
            run(start, earlier_events).0,
            run(start, earlier_events).1,
            events.last(),
            checkouts[0],
            earlier_checkouts.last(),
            checkouts.last(),
        );
    }
}

/// One step keeps what [`WorkflowView::holds_adopted`] says.
pub proof fn lemma_step_holds_adopted(
    workflow: WorkflowView,
    action: ActionView,
    event: EventView,
    now: Checkout,
    after: Checkout,
)
    requires
        workflow.wf(),
        workflow.holds_adopted(action, now),
        answers(now, action, event, after),
    ensures
        workflow.next(event).0.wf(),
        workflow.next(event).0.holds_adopted(workflow.next(event).1, after),
        workflow.next(event).0.configuration == workflow.configuration,
{
}

/// Once the newest commit is adopted, it stays checked out until the
/// rollback.
///
/// Take an update that waits for the checkout of the manifest's branch at the
/// newest commit, let that checkout be acknowledged and have taken place, and
/// let any answers follow that the actions can get. The newest commit is now
/// the pinned commit. As long as the update is at the secrets, that is until
/// it asks for the rollback or ends, the repository has the manifest's branch
/// checked out at that commit, and nothing that the update asks for moves
/// the checkout. So every secret that is read from the repository for
/// encrypting is read at the adopted commit, and none is read later.
pub proof fn lemma_adopted_commit_stays_checked_out(
    workflow: WorkflowView,
    events: Seq<EventView>,
    checkouts: Seq<Checkout>,
)
    requires
        workflow.wf(),
        workflow.outcome is None,
        workflow.operation == Operation::Update,
        workflow.phase == Phase::CheckoutLatest,
        repository_run(workflow.next(EventView::Acknowledged), events, checkouts),
        checkouts[0] == (Checkout {
            branch: workflow.configuration.branch,
            hash: workflow.latest_hash,
        }),
    ensures
        ({
            let reached = run(workflow.next(EventView::Acknowledged), events);
            &&& reached.0.wf()
            &&& reached.0.holds_adopted(reached.1, checkouts.last())
            &&& reached.0.configuration.branch == workflow.configuration.branch
            &&& reached.0.configuration.pinned_hash == workflow.latest_hash
            &&& reached.0.at_the_secrets() ==> checkouts.last() == checkouts[0]
                && !reached.1.moves_checkout()
            &&& reached.1 is ReadSecret ==> reached.0.at_the_secrets() && checkouts.last()
                == checkouts[0]
        }),
    decreases events.len(),
{
    let adopted = workflow.next(EventView::Acknowledged);
    if events.len() > 0 {
        let earlier_events = events.drop_last();
        let earlier_checkouts = checkouts.drop_last();
        lemma_repository_run_shortens(adopted, events, checkouts);
        lemma_adopted_commit_stays_checked_out(workflow, earlier_events, earlier_checkouts);
        lemma_step_holds_adopted(
            run(adopted, earlier_events).0,
            run(adopted, earlier_events).1,
            events.last(),
            earlier_checkouts.last(),
            checkouts.last(),
        );
    }
}

/// Secrets are read from the repository at the pinned commit or where the
/// repository was found.
///
/// Take an update on any manifest and any answers that its actions can get.
/// Whenever the update asks for a secret to be read from the repository, the
/// repository has checked out the branch and the commit that it had when the
/// update began, or the manifest's branch at the pinned commit; and from the
/// persisting of the manifest to the end of the encrypting nothing that the
/// update asks for moves the checkout.
pub proof fn lemma_secrets_are_read_at_origin_or_pin(
    configuration: ConfigurationView,
    events: Seq<EventView>,
    checkouts: Seq<Checkout>,
)
    requires
        repository_run(update_start(configuration), events, checkouts),
    ensures
        ({
            let reached = run(update_start(configuration), events);
            &&& reached.0.at_the_secrets() ==> !reached.1.moves_checkout() && (checkouts.last()
                == checkouts[0] || checkouts.last() == reached.0.pinned())
            &&& reached.1 is ReadSecret ==> reached.0.at_the_secrets()
        }),
{
    let start = update_start(configuration);
    lemma_run_stays_settled(start, configuration, events, checkouts);
}

} // verus!
