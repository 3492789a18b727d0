//! The order of operations of a provisioning or an update run.
//!
//! A run is a conversation. [`Run`] names the next operation on the mirror,
//! the caller carries it out and reports what happened, and [`Run`] decides
//! from that what comes next, until the run stops with a change set or with an
//! error. Nothing here touches the disk or the network.

use crate::asn_ip::upstream::{
    change_set, changed_below, is_absolute, GitFailure, GitOperation, Upstream, UpstreamError,
    UpstreamErrorView,
};
use vstd::prelude::*;
use vstd::string::*;

verus! {

/// What a run is for.
#[derive(Clone, Copy, Debug, PartialEq, Eq, Structural)]
pub enum Goal {
    /// Make sure that the mirror exists.
    Provision,
    /// Make sure that the mirror exists, then bring it up to date.
    Update,
}

/// What the caller is asked to do next.
#[derive(Clone, Copy, Debug, PartialEq, Eq, Structural)]
pub enum Action {
    /// Say whether the mirror's root exists. Answer: [`Event::Exists`].
    CheckLocation,
    /// Create the mirror's root and every directory above it.
    CreateDirectories,
    /// Open the repository at the mirror's root.
    OpenRepository,
    /// Clone the remote repository into the mirror's root.
    CloneRepository,
    /// Fetch the branch from the remote.
    Fetch,
    /// Look up the reference that the fetch left behind.
    ResolveFetchHead,
    /// Say whether the file of that reference exists. Answer: [`Event::Exists`].
    CheckMarker,
    /// Give the length of that file. Answer: [`Event::Size`], or [`Event::Failed`].
    MeasureMarker,
    /// Compare the tree of the local head with the tree that was fetched.
    /// Answer: [`Event::Changed`] with the new-side path of every entry, or
    /// [`Event::Failed`].
    Diff,
    /// Merge what was fetched, overwriting the working copy.
    Merge,
    /// Nothing: the run is over.
    Stop,
}

/// What the caller reports of the operation it was asked for.
#[derive(Debug, PartialEq, Eq)]
pub enum Event {
    Exists(bool),
    Succeeded,
    Failed(String),
    Size(u64),
    Changed(Vec<Option<String>>),
}

/// An [`Event`] with its texts as sequences of characters.
pub enum EventView {
    Exists(bool),
    Succeeded,
    Failed(Seq<char>),
    Size(u64),
    Changed(Seq<Option<Seq<char>>>),
}

impl View for Event {
    type V = EventView;

    open spec fn view(&self) -> EventView {
        match *self {
            Event::Exists(exists) => EventView::Exists(exists),
            Event::Succeeded => EventView::Succeeded,
            Event::Failed(message) => EventView::Failed(message@),
            Event::Size(size) => EventView::Size(size),
            Event::Changed(new_paths) => EventView::Changed(new_paths.deep_view()),
        }
    }
}

/// A run in progress.
#[derive(Debug)]
pub struct Run {
    root: String,
    goal: Goal,
    awaiting: Action,
    lookup_failure: String,
    changes: Vec<String>,
    error: Option<UpstreamError>,
}

/// The state of a run.
pub struct RunView {
    /// The mirror's root.
    pub root: Seq<char>,
    /// What the run is for.
    pub goal: Goal,
    /// The operation whose answer is outstanding.
    pub awaiting: Action,
    /// What the lookup of the fetched reference reported when it failed.
    pub lookup_failure: Seq<char>,
    /// The change set, once the difference is known.
    pub changes: Seq<Seq<char>>,
    /// Why the run stopped, if it stopped on a failure.
    pub error: Option<UpstreamErrorView>,
}

impl View for Run {
    type V = RunView;

    closed spec fn view(&self) -> RunView {
        RunView {
            root: self.root@,
            goal: self.goal,
            awaiting: self.awaiting,
            lookup_failure: self.lookup_failure@,
            changes: self.changes.deep_view(),
            error: match self.error {
                Some(error) => Some(error@),
                None => None,
            },
        }
    }
}

/// The text of the failure that is reported when a fetch left no reference
/// file behind.
pub open spec fn missing_marker_text() -> Seq<char> {
    "expected FETCH_HEAD file not found"@
}

/// A run at its beginning.
pub open spec fn start(root: Seq<char>, goal: Goal) -> RunView {
    RunView {
        root,
        goal,
        awaiting: Action::CheckLocation,
        lookup_failure: Seq::empty(),
        changes: Seq::empty(),
        error: None,
    }
}

/// The run `s`, waiting for another operation.
pub open spec fn proceed(s: RunView, action: Action) -> RunView {
    RunView { awaiting: action, ..s }
}

/// The run `s`, stopped without a failure.
pub open spec fn succeed(s: RunView) -> RunView {
    RunView { awaiting: Action::Stop, ..s }
}

/// The run `s`, stopped on `error`. No change is reported.
pub open spec fn fail(s: RunView, error: UpstreamErrorView) -> RunView {
    RunView { awaiting: Action::Stop, changes: Seq::empty(), error: Some(error), ..s }
}

/// The run `s`, once the mirror is known to exist.
pub open spec fn provisioned(s: RunView) -> RunView {
    match s.goal {
        Goal::Provision => succeed(s),
        Goal::Update => proceed(s, Action::Fetch),
    }
}

/// The run `s` after the caller has reported `event`. A report that is no
/// answer to the operation asked for leaves the run as it is.
pub open spec fn next(s: RunView, event: EventView) -> RunView {
    match (s.awaiting, event) {
        (Action::CheckLocation, EventView::Exists(true)) => proceed(s, Action::OpenRepository),
        (Action::CheckLocation, EventView::Exists(false)) => proceed(
            s,
            Action::CreateDirectories,
        ),
        (Action::CreateDirectories, EventView::Succeeded) => proceed(s, Action::OpenRepository),
        (Action::CreateDirectories, EventView::Failed(message)) => fail(
            s,
            UpstreamErrorView::IoError { message },
        ),
        (Action::OpenRepository, EventView::Succeeded) => provisioned(s),
        (Action::OpenRepository, EventView::Failed(_)) => proceed(s, Action::CloneRepository),
        (Action::CloneRepository, EventView::Succeeded) => provisioned(s),
        (Action::CloneRepository, EventView::Failed(message)) => fail(
            s,
            UpstreamErrorView::GitError { operation: GitOperation::Clone, message },
        ),
        (Action::Fetch, EventView::Succeeded) => proceed(s, Action::ResolveFetchHead),
        (Action::Fetch, EventView::Failed(message)) => fail(
            s,
            UpstreamErrorView::GitError { operation: GitOperation::Fetch, message },
        ),
        (Action::ResolveFetchHead, EventView::Succeeded) => proceed(s, Action::Diff),
        (Action::ResolveFetchHead, EventView::Failed(message)) => RunView {
            awaiting: Action::CheckMarker,
            lookup_failure: message,
            ..s
        },
        (Action::CheckMarker, EventView::Exists(true)) => proceed(s, Action::MeasureMarker),
        (Action::CheckMarker, EventView::Exists(false)) => fail(
            s,
            UpstreamErrorView::GitError {
                operation: GitOperation::ResolveFetchHead,
                message: missing_marker_text(),
            },
        ),
        (Action::MeasureMarker, EventView::Size(size)) => if size == 0 {
            succeed(s)
        } else {
            fail(
                s,
                UpstreamErrorView::GitError {
                    operation: GitOperation::ResolveFetchHead,
                    message: s.lookup_failure,
                },
            )
        },
        (Action::MeasureMarker, EventView::Failed(message)) => fail(
            s,
            UpstreamErrorView::IoError { message },
        ),
        (Action::Diff, EventView::Changed(new_paths)) => RunView {
            awaiting: Action::Merge,
            changes: change_set(s.root, new_paths),
            ..s
        },
        (Action::Diff, EventView::Failed(message)) => fail(
            s,
            UpstreamErrorView::GitError { operation: GitOperation::Diff, message },
        ),
        (Action::Merge, EventView::Succeeded) => succeed(s),
        (Action::Merge, EventView::Failed(message)) => fail(
            s,
            UpstreamErrorView::GitError { operation: GitOperation::Merge, message },
        ),
        _ => s,
    }
}

/// The run `s` after the caller has reported `events`, one after the other.
pub open spec fn run(s: RunView, events: Seq<EventView>) -> RunView
    decreases events.len(),
{
    if events.len() == 0 {
        s
    } else {
        next(run(s, events.drop_last()), events.last())
    }
}

/// What the run `s` has come to: nothing while an operation is outstanding,
/// else the change set or the failure.
pub open spec fn outcome(s: RunView) -> Option<Result<Seq<Seq<char>>, UpstreamErrorView>> {
    if s.awaiting != Action::Stop {
        None
    } else {
        match s.error {
            Some(error) => Some(Err(error)),
            None => Some(Ok(s.changes)),
        }
    }
}

/// Whether `action` is part of provisioning.
pub open spec fn provisions(action: Action) -> bool {
    ||| action == Action::CheckLocation
    ||| action == Action::CreateDirectories
    ||| action == Action::OpenRepository
    ||| action == Action::CloneRepository
}

/// What holds of a run at every moment: a failure is recorded only when the
/// run has stopped, changes are recorded only once the difference is known
/// and never beside a failure, and a run that is only to provision asks for
/// nothing beyond provisioning.
pub open spec fn consistent(s: RunView) -> bool {
    &&& s.error is Some ==> s.awaiting == Action::Stop && s.changes.len() == 0
    &&& s.changes.len() > 0 ==> s.awaiting == Action::Merge || s.awaiting == Action::Stop
    &&& s.goal == Goal::Provision ==> provisions(s.awaiting) || s.awaiting == Action::Stop
}

impl Run {
    /// Begins a run on the mirror `upstream`.
    pub fn new(upstream: &Upstream, goal: Goal) -> (run: Run)
        ensures
            run@ == start(upstream.root(), goal),
            is_absolute(run@.root),
    {
        let root = String::from_str(upstream.get_repo_path());
        let run = Run {
            root,
            goal,
            awaiting: Action::CheckLocation,
            lookup_failure: String::new(),
            changes: Vec::new(),
            error: None,
        };
        assert(run.changes.deep_view() =~= Seq::empty());
        run
    }

    /// The operation that the caller is asked to carry out now.
    pub fn awaiting(&self) -> (action: Action)
        ensures
            action == self@.awaiting,
    {
        self.awaiting
    }

    /// Whether the run is over.
    pub fn is_finished(&self) -> (finished: bool)
        ensures
            finished == (self@.awaiting == Action::Stop),
            finished == (outcome(self@) is Some),
    {
        match self.awaiting {
            Action::Stop => true,
            _ => false,
        }
    }

    /// Takes the caller's report of the operation it was asked for, and names
    /// the operation that comes next.
    pub fn step(&mut self, event: Event) -> (action: Action)
        ensures
            final(self)@ == next(old(self)@, event@),
            action == final(self)@.awaiting,
    {
        match self.awaiting {
            Action::CheckLocation => match event {
                Event::Exists(exists) => {
                    if exists {
                        self.awaiting = Action::OpenRepository;
                    } else {
                        self.awaiting = Action::CreateDirectories;
                    }
                },
                _ => {},
            },
            Action::CreateDirectories => match event {
                Event::Succeeded => {
                    self.awaiting = Action::OpenRepository;
                },
                Event::Failed(message) => {
                    self.stop_on(UpstreamError::IoError(message));
                },
                _ => {},
            },
            Action::OpenRepository => match event {
                Event::Succeeded => {
                    self.mirror_exists();
                },
                Event::Failed(_) => {
                    self.awaiting = Action::CloneRepository;
                },
                _ => {},
            },
            Action::CloneRepository => match event {
                Event::Succeeded => {
                    self.mirror_exists();
                },
                Event::Failed(message) => {
                    self.stop_on_git(GitOperation::Clone, message);
                },
                _ => {},
            },
            Action::Fetch => match event {
                Event::Succeeded => {
                    self.awaiting = Action::ResolveFetchHead;
                },
                Event::Failed(message) => {
                    self.stop_on_git(GitOperation::Fetch, message);
                },
                _ => {},
            },
            Action::ResolveFetchHead => match event {
                Event::Succeeded => {
                    self.awaiting = Action::Diff;
                },
                Event::Failed(message) => {
                    self.lookup_failure = message;
                    self.awaiting = Action::CheckMarker;
                },
                _ => {},
            },
            Action::CheckMarker => match event {
                Event::Exists(exists) => {
                    if exists {
                        self.awaiting = Action::MeasureMarker;
                    } else {
                        self.stop_on_git(
                            GitOperation::ResolveFetchHead,
                            String::from_str("expected FETCH_HEAD file not found"),
                        );
                    }
                },
                _ => {},
            },
            Action::MeasureMarker => match event {
                Event::Size(size) => {
                    if size == 0 {
                        self.awaiting = Action::Stop;
                    } else {
                        let message = self.lookup_failure.clone();
                        self.stop_on_git(GitOperation::ResolveFetchHead, message);
                    }
                },
                Event::Failed(message) => {
                    self.stop_on(UpstreamError::IoError(message));
                },
                _ => {},
            },
            Action::Diff => match event {
                Event::Changed(new_paths) => {
                    self.changes = changed_below(&self.root, &new_paths);
                    self.awaiting = Action::Merge;
                },
                Event::Failed(message) => {
                    self.stop_on_git(GitOperation::Diff, message);
                },
                _ => {},
            },
            Action::Merge => match event {
                Event::Succeeded => {
                    self.awaiting = Action::Stop;
                },
                Event::Failed(message) => {
                    self.stop_on_git(GitOperation::Merge, message);
                },
                _ => {},
            },
            Action::Stop => {},
        }
        self.awaiting
    }

    /// Ends the run and hands out what it has come to: nothing if an operation
    /// is still outstanding, else the change set or the failure.
    pub fn into_outcome(self) -> (result: Option<Result<Vec<String>, UpstreamError>>)
        ensures
            match outcome(self@) {
                None => result is None,
                Some(Ok(changes)) => result matches Some(Ok(list)) && list.deep_view() == changes,
                Some(Err(error)) => result matches Some(Err(e)) && e@ == error,
            },
    {
        match self.awaiting {
            Action::Stop => match self.error {
                Some(error) => Some(Err(error)),
                None => Some(Ok(self.changes)),
            },
            _ => None,
        }
    }

    fn mirror_exists(&mut self)
        ensures
            final(self)@ == provisioned(old(self)@),
    {
        match self.goal {
            Goal::Provision => {
                self.awaiting = Action::Stop;
            },
            Goal::Update => {
                self.awaiting = Action::Fetch;
            },
        }
    }

    fn stop_on(&mut self, error: UpstreamError)
        ensures
            final(self)@ == fail(old(self)@, error@),
    {
        self.awaiting = Action::Stop;
        self.changes = Vec::new();
        self.error = Some(error);
        assert(self.changes.deep_view() =~= Seq::empty());
    }

    fn stop_on_git(&mut self, operation: GitOperation, message: String)
        ensures
            final(self)@ == fail(
                old(self)@,
                UpstreamErrorView::GitError { operation, message: message@ },
            ),
    {
        self.stop_on(UpstreamError::GitError(GitFailure { operation, message }));
    }
}

/// A run starts consistent, every report leaves it consistent, and no report
/// moves it to another mirror or gives it another goal.
pub proof fn lemma_run_stays_consistent(root: Seq<char>, goal: Goal, events: Seq<EventView>)
    ensures
        consistent(run(start(root, goal), events)),
        run(start(root, goal), events).root == root,
        run(start(root, goal), events).goal == goal,
    decreases events.len(),
{
    if events.len() > 0 {
        lemma_run_stays_consistent(root, goal, events.drop_last());
        lemma_step_stays_consistent(run(start(root, goal), events.drop_last()), events.last());
    }
}

/// One report leaves a consistent run consistent, on the same mirror and with
/// the same goal.
pub proof fn lemma_step_stays_consistent(s: RunView, event: EventView)
    requires
        consistent(s),
    ensures
        consistent(next(s, event)),
        next(s, event).root == s.root,
        next(s, event).goal == s.goal,
{
}

/// Provisioning never clones over a mirror that is there: a clone is asked
/// for only in answer to a failed attempt to open the repository, and
/// directories are created only in answer to a missing root. When the root
/// exists and the repository opens, nothing else is asked of the mirror,
/// however often the run is repeated.
pub proof fn lemma_existing_mirror_is_kept(s: RunView, event: EventView)
    ensures
        next(s, event).awaiting == Action::CloneRepository && s.awaiting
            != Action::CloneRepository ==> s.awaiting == Action::OpenRepository
            && event is Failed,
        next(s, event).awaiting == Action::CreateDirectories && s.awaiting
            != Action::CreateDirectories ==> s.awaiting == Action::CheckLocation && event
            == EventView::Exists(false),
        run(start(s.root, Goal::Provision), seq![EventView::Exists(true), EventView::Succeeded])
            == succeed(start(s.root, Goal::Provision)),
        outcome(succeed(start(s.root, Goal::Provision))) == Some(
            Ok::<Seq<Seq<char>>, UpstreamErrorView>(Seq::empty()),
        ),
{
    let events = seq![EventView::Exists(true), EventView::Succeeded];
    let begin = start(s.root, Goal::Provision);
    assert(events.drop_last() =~= seq![EventView::Exists(true)]);
    assert(events.drop_last().drop_last() =~= Seq::<EventView>::empty());
    reveal_with_fuel(run, 3);
    assert(run(begin, events.drop_last().drop_last()) == begin);
    assert(run(begin, events.drop_last()) == proceed(begin, Action::OpenRepository));
}

/// An update that fetched nothing changes nothing. When the fetch left an
/// empty reference file behind, the run stops with an empty change set and
/// without a merge. When the difference between the local head and what was
/// fetched has no entry, the change set is empty too. A merge is asked for
/// only in answer to a difference that was computed, and the change set is
/// then the one of that difference.
pub proof fn lemma_nothing_fetched_nothing_changed(s: RunView, event: EventView)
    requires
        consistent(s),
    ensures
        s.awaiting == Action::MeasureMarker && event == EventView::Size(0) ==> outcome(
            next(s, event),
        ) == Some(Ok::<Seq<Seq<char>>, UpstreamErrorView>(Seq::empty())),
        s.awaiting == Action::Diff && event == EventView::Changed(Seq::empty()) ==> outcome(
            next(next(s, event), EventView::Succeeded),
        ) == Some(Ok::<Seq<Seq<char>>, UpstreamErrorView>(Seq::empty())),
        next(s, event).awaiting == Action::Merge && s.awaiting != Action::Merge ==> {
            &&& s.awaiting == Action::Diff
            &&& event matches EventView::Changed(new_paths)
            &&& next(s, event).changes == change_set(s.root, new_paths)
        },
{
    if s.awaiting == Action::MeasureMarker && event == EventView::Size(0) {
        assert(next(s, event).changes =~= Seq::empty());
    }
}

/// An update reports all or nothing. A run that stops on a failure reports no
/// change. A run that stops without one reports the whole change set of the
/// difference, and only after the merge succeeded; where no merge took place
/// (nothing was fetched, or the run was only to provision) the change set is
/// empty.
pub proof fn lemma_all_or_nothing(s: RunView, event: EventView)
    requires
        consistent(s),
        s.awaiting != Action::Stop,
        next(s, event).awaiting == Action::Stop,
    ensures
        match outcome(next(s, event)) {
            Some(Ok(changes)) => {
                ||| s.awaiting == Action::Merge && event == EventView::Succeeded && changes
                    == s.changes
                ||| s.awaiting == Action::MeasureMarker && event == EventView::Size(0)
                    && changes.len() == 0
                ||| s.goal == Goal::Provision && provisions(s.awaiting) && event
                    == EventView::Succeeded && changes.len() == 0
            },
            Some(Err(_)) => next(s, event).changes.len() == 0,
            None => false,
        },
{
}

/// How many answers a run that waits for `action` can need at most before it
/// stops.
pub open spec fn remaining(action: Action) -> nat {
    match action {
        Action::CheckLocation => 10,
        Action::CreateDirectories => 9,
        Action::OpenRepository => 8,
        Action::CloneRepository => 7,
        Action::Fetch => 6,
        Action::ResolveFetchHead => 5,
        Action::CheckMarker => 4,
        Action::MeasureMarker => 3,
        Action::Diff => 2,
        Action::Merge => 1,
        Action::Stop => 0,
    }
}

/// A run never turns back: a report is either passed over, which leaves the
/// run as it was, or it moves the run nearer to its end. So a run that is
/// answered every time stops after ten answers at most, and a caller that is
/// asked for the same operation twice in a row has given a report that was
/// no answer.
pub proof fn lemma_run_moves_forward(s: RunView, event: EventView)
    ensures
        next(s, event) == s || remaining(next(s, event).awaiting) < remaining(s.awaiting),
        next(s, event).awaiting == s.awaiting ==> next(s, event) == s,
{
}

/// A run that has stopped stays as it is, whatever is reported to it.
pub proof fn lemma_stopped_run_is_final(s: RunView, events: Seq<EventView>)
    requires
        s.awaiting == Action::Stop,
    ensures
        run(s, events) == s,
    decreases events.len(),
{
    if events.len() > 0 {
        lemma_stopped_run_is_final(s, events.drop_last());
    }
}

} // verus!
