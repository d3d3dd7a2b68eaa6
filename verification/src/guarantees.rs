//! What holds of every way in which opening a remote project can go.

use crate::connect::{
    checking_again, resolving, AttemptOutcomeModel, ConnectModel, ConnectStepModel, RETRY,
};
use crate::connection::RemoteOptionsModel;
use crate::events::EventModel;
use crate::existing::{
    is_reported, lemma_is_reported, lemma_reported_earlier, reported_alive, unsearched,
    ExistingStepModel, OutcomeModel,
};
use crate::navigate::targets;
use crate::open::{unopened, OpenModel};
use crate::paths::{without_position, PathModel, PositionModel};
use crate::prepare::{own_window, unprepared, PreparationStepModel, PreparedModel};
use crate::resolve::{
    law_each_path_is_resolved, lemma_answer, lemma_settle, resolved, settle, ResolutionModel,
};
use crate::workspace::{ExistingWorkspace, OpenOptions};
use vstd::prelude::*;

verus! {

/// The project can end up in this window: it is the one that was prepared for it, or the window of
/// a workspace that was found to be open on it and to have a connection.
pub open spec fn possible_window(
    project: PreparedModel,
    events: Seq<EventModel>,
    window: u64,
) -> bool {
    window == project.window || reported_alive(events, window)
}

spec fn connect_invariant(
    project: PreparedModel,
    activate_window: bool,
    events: Seq<EventModel>,
) -> bool {
    let start = project.connecting(activate_window);
    let now = start.run(events);
    &&& now.wf()
    &&& now == (ConnectModel { step: now.step, ..start })
    &&& match now.step {
        ConnectStepModel::CheckFirst(check) => is_reported(check, events),
        ConnectStepModel::CheckAgain { check, .. } => is_reported(check, events),
        ConnectStepModel::FinishModal(AttemptOutcomeModel::Opened(window)) => possible_window(
            project,
            events,
            window,
        ),
        ConnectStepModel::RemoveWindow(window) => start.created_new_window() && possible_window(
            project,
            events,
            window,
        ),
        ConnectStepModel::Done(window) => possible_window(project, events, window),
        ConnectStepModel::Prompt { message, .. } => message == project.connection_options.failure(),
        ConnectStepModel::TrackTrust { workspace } => workspace == project.initial_workspace,
        ConnectStepModel::Retry { workspace } => workspace == project.initial_workspace,
        _ => true,
    }
}

proof fn lemma_connect(project: PreparedModel, activate_window: bool, events: Seq<EventModel>)
    ensures
        connect_invariant(project, activate_window, events),
    decreases events.len(),
{
    if events.len() > 0 {
        let earlier = events.drop_last();
        let start = project.connecting(activate_window);
        let before = start.run(earlier);
        lemma_connect(project, activate_window, earlier);
        lemma_about_its_paths(project, activate_window, events);
        assert forall|window: u64| #[trigger]
            reported_alive(earlier, window) implies reported_alive(events, window) by {
            lemma_reported_earlier(events, window);
        }
        match before.step {
            ConnectStepModel::CheckFirst(check) => {
                lemma_is_reported(check, events);
            },
            ConnectStepModel::CheckAgain { check, .. } => {
                lemma_is_reported(check, events);
            },
            _ => {},
        }
    }
}

/// The window that connecting ends with is the one that was prepared for the project, or the window
/// of a workspace that was found to be open on the project with a living connection.
pub proof fn law_the_returned_window(
    project: PreparedModel,
    activate_window: bool,
    events: Seq<EventModel>,
)
    ensures
        project.connecting(activate_window).run(events).step matches ConnectStepModel::Done(window)
            ==> possible_window(project, events, window),
{
    lemma_connect(project, activate_window, events);
}

/// A window that was there before the project is never closed.
pub proof fn law_a_window_that_was_there_stays(
    project: PreparedModel,
    activate_window: bool,
    events: Seq<EventModel>,
)
    requires
        project.open_options.requesting_window is Some,
    ensures
        project.connecting(activate_window).run(events).step !is RemoveWindow,
{
    lemma_connect(project, activate_window, events);
}

/// If the project ends up in another window than the one that was opened for it, the one that was
/// opened for it has been closed.
pub proof fn law_no_window_is_left_behind(
    project: PreparedModel,
    activate_window: bool,
    events: Seq<EventModel>,
    window: u64,
)
    requires
        project.open_options.requesting_window is None,
        project.connecting(activate_window).run(events).step == ConnectStepModel::Done(window),
        window != project.window,
    ensures
        exists|k: int|
            0 <= k < events.len() && #[trigger] project.connecting(activate_window).run(
                events.take(k),
            ).step == ConnectStepModel::RemoveWindow(window) && events[k] == EventModel::Performed,
    decreases events.len(),
{
    let start = project.connecting(activate_window);
    let earlier = events.drop_last();
    let before = start.run(earlier);
    lemma_connect(project, activate_window, earlier);
    if before.step == ConnectStepModel::Done(window) {
        law_no_window_is_left_behind(project, activate_window, earlier, window);
        let k = choose|k: int|
            0 <= k < earlier.len() && #[trigger] start.run(earlier.take(k)).step
                == ConnectStepModel::RemoveWindow(window) && earlier[k] == EventModel::Performed;
        assert(earlier.take(k) =~= events.take(k));
        assert(events[k] == earlier[k]);
        assert(start.run(events.take(k)).step == ConnectStepModel::RemoveWindow(window));
    } else {
        let k = events.len() - 1;
        assert(events.take(k) =~= earlier);
        assert(start.run(events.take(k)).step == ConnectStepModel::RemoveWindow(window));
        assert(events[k] == events.last());
    }
}

/// Cancelling an attempt at any point at which it can be cancelled ends it without a prompt: the
/// modal is told, a window that was opened for the project is closed, and the window that was
/// prepared for the project is returned.
pub proof fn law_cancelling_gives_up(connect: ConnectModel)
    requires
        connect.cancellable(),
    ensures
        ({
            let cancelled = connect.next(EventModel::Cancelled);
            let told = cancelled.next(EventModel::Performed);
            &&& cancelled.step == ConnectStepModel::FinishModal(AttemptOutcomeModel::NotOpened)
            &&& !connect.created_new_window() ==> told.step == ConnectStepModel::Done(
                connect.window,
            )
            &&& connect.created_new_window() ==> {
                &&& told.step == ConnectStepModel::RemoveWindow(connect.window)
                &&& told.next(EventModel::Performed).step == ConnectStepModel::Done(connect.window)
            }
        }),
{
}

/// A project can be cancelled before anything has been done to connect to it.
pub proof fn law_a_project_can_be_cancelled_from_the_start(
    project: PreparedModel,
    activate_window: bool,
)
    ensures
        project.connecting(activate_window).cancellable(),
{
}

/// Trying again starts all over: after the answer that asks for it, and once the next attempt is
/// prepared, everything is as it was at the start.
pub proof fn law_retrying_starts_over(
    project: PreparedModel,
    activate_window: bool,
    events: Seq<EventModel>,
)
    requires
        project.connecting(activate_window).run(events).step is Prompt,
    ensures
        project.connecting(activate_window).run(events).next(
            EventModel::Answered(Some(RETRY)),
        ).next(EventModel::AttemptPrepared(true)) == project.connecting(activate_window),
{
    lemma_connect(project, activate_window, events);
}

/// The message of every prompt is the one for the connection that was asked for. Trust is asked for
/// in the workspace that stands in for that of the project, and that is where another attempt is
/// prepared.
pub proof fn law_a_failure_is_dealt_with_in_the_stand_in(
    project: PreparedModel,
    activate_window: bool,
    events: Seq<EventModel>,
)
    ensures
        match project.connecting(activate_window).run(events).step {
            ConnectStepModel::Prompt { message, .. } => message
                == project.connection_options.failure(),
            ConnectStepModel::TrackTrust { workspace } => workspace == project.initial_workspace,
            ConnectStepModel::Retry { workspace } => workspace == project.initial_workspace,
            _ => true,
        },
{
    lemma_connect(project, activate_window, events);
}

/// Any other answer gives up. The stand-in for the project asks for trust first, if the connection
/// was made and only the project could not be opened over it.
pub proof fn law_not_retrying_gives_up(connect: ConnectModel, answer: Option<usize>)
    requires
        connect.step is Prompt,
        answer != Some(RETRY),
    ensures
        ({
            let answered = connect.next(EventModel::Answered(answer));
            if connect.step->Prompt_opening_failed {
                &&& answered.step is TrackTrust
                &&& answered.next(EventModel::Performed).step == connect.giving_up()
            } else {
                answered.step == connect.giving_up()
            }
        }),
{
}

/// A failed attempt is the only thing that is ever asked about, and trust is only asked for after
/// the opening of the project failed.
pub proof fn law_only_failures_are_asked_about(connect: ConnectModel, event: EventModel)
    requires
        connect.wf(),
    ensures
        connect.next(event).step is Prompt && connect.step !is Prompt ==> {
            &&& connect.step matches ConnectStepModel::FinishModal(
                AttemptOutcomeModel::Failed { error, opening_failed },
            )
            &&& connect.next(event).step == (ConnectStepModel::Prompt {
                message: connect.connection_options.failure(),
                error,
                opening_failed,
            })
        },
        connect.next(event).step is TrackTrust && connect.step !is TrackTrust
            ==> (connect.step matches ConnectStepModel::Prompt { opening_failed, .. }
            && opening_failed),
{
}

/// The steps of one attempt.
pub open spec fn in_attempt(step: ConnectStepModel) -> bool {
    match step {
        ConnectStepModel::Activate => true,
        ConnectStepModel::CheckFirst(_) => true,
        ConnectStepModel::Connect => true,
        ConnectStepModel::Resolve(_) => true,
        ConnectStepModel::Lock { .. } => true,
        ConnectStepModel::CheckAgain { .. } => true,
        ConnectStepModel::OpenProject { .. } => true,
        ConnectStepModel::Navigate(_) => true,
        _ => false,
    }
}

/// However an attempt ends, the modal is told before anything else happens.
pub proof fn law_the_modal_is_always_told(connect: ConnectModel, event: EventModel)
    requires
        connect.wf(),
        in_attempt(connect.step),
    ensures
        in_attempt(connect.next(event).step) || connect.next(event).step is FinishModal,
{
}

/// A project is opened over a new connection only while its lock is held, after a second look
/// under the lock found no workspace open on it. The lock is held for the very paths that are
/// looked for and then opened, and is not let go before the attempt is over.
pub proof fn law_a_project_is_opened_under_its_lock(connect: ConnectModel, event: EventModel)
    requires
        connect.wf(),
    ensures
        connect.next(event).holds_lock() && !connect.holds_lock() ==> {
            &&& connect.step is Lock
            &&& event is Performed
            &&& connect.next(event).step == checking_again(
                unsearched(
                    connect.connection_options,
                    connect.step->Lock_paths,
                    Some(connect.step->Lock_positions),
                    connect.open_options,
                    connect.activate_window,
                ),
                connect.step->Lock_paths,
                connect.step->Lock_positions,
            )
        },
        connect.next(event).step is OpenProject && connect.step !is OpenProject ==> {
            &&& connect.holds_lock()
            &&& connect.step matches ConnectStepModel::CheckAgain { check, paths, positions }
            &&& check.next(event) == ExistingStepModel::Done(OutcomeModel::Nothing)
            &&& connect.next(event).step == (ConnectStepModel::OpenProject { paths, positions })
        },
        connect.holds_lock() && !connect.next(event).holds_lock() ==> connect.next(
            event,
        ).step is FinishModal,
{
}

/// Once there is a window to return, nothing changes any more.
pub proof fn law_the_end_is_the_end(connect: ConnectModel, events: Seq<EventModel>)
    requires
        connect.step is Done,
    ensures
        connect.run(events) == connect,
    decreases events.len(),
{
    if events.len() > 0 {
        law_the_end_is_the_end(connect, events.drop_last());
    }
}

impl ConnectModel {
    /// The state after the next `n` questions about the paths have been answered truly.
    pub open spec fn resolved(
        self,
        parse: spec_fn(Seq<char>) -> PositionModel,
        present: spec_fn(PathModel) -> bool,
        n: nat,
    ) -> ConnectModel
        decreases n,
    {
        if n == 0 {
            self
        } else {
            let earlier = self.resolved(parse, present, (n - 1) as nat);
            match earlier.step {
                ConnectStepModel::Resolve(resolution) => earlier.next(
                    resolution.answer(parse, present),
                ),
                _ => earlier,
            }
        }
    }
}

proof fn lemma_resolving(
    connect: ConnectModel,
    resolution: ResolutionModel,
    parse: spec_fn(Seq<char>) -> PositionModel,
    present: spec_fn(PathModel) -> bool,
    n: nat,
)
    requires
        connect.step == resolving(resolution),
    ensures
        connect.resolved(parse, present, n) == (ConnectModel {
            step: resolving(resolution.after(parse, present, n)),
            ..connect
        }),
    decreases n,
{
    if n > 0 {
        lemma_resolving(connect, resolution, parse, present, (n - 1) as nat);
    }
}

/// Once the connection is made, the project that is locked, looked for again and then opened is
/// the one that was asked for, with the positions in its paths told apart from the paths. The
/// cursors go to those positions, and the project ends up in the window that was prepared for it.
pub proof fn law_a_project_opens_as_asked(
    connect: ConnectModel,
    parse: spec_fn(Seq<char>) -> PositionModel,
    present: spec_fn(PathModel) -> bool,
    n: nat,
    items: Seq<Option<u64>>,
)
    requires
        connect.step is Connect,
        n >= 2 * connect.paths.len(),
    ensures
        ({
            let paths = connect.paths.map_values(
                |path: PathModel| resolved(path, parse, present).path,
            );
            let positions = connect.paths.map_values(
                |path: PathModel| resolved(path, parse, present),
            );
            let ready = connect.next(EventModel::Performed).resolved(parse, present, n);
            let clear = ready.next(EventModel::Performed).next(EventModel::Found(None));
            let opened = clear.next(EventModel::ProjectOpened(Some(items)));
            let over = opened.next(EventModel::Performed);
            &&& ready.step == (ConnectStepModel::Lock { paths, positions })
            &&& clear.step == (ConnectStepModel::OpenProject { paths, positions })
            &&& opened.step == ConnectStepModel::Navigate(targets(items, positions))
            &&& over.step == ConnectStepModel::FinishModal(
                AttemptOutcomeModel::Opened(connect.window),
            )
            &&& over.next(EventModel::Performed).step == ConnectStepModel::Done(connect.window)
        }),
{
    lemma_resolving(
        connect.next(EventModel::Performed),
        settle(connect.paths, Seq::empty()),
        parse,
        present,
        n,
    );
    law_each_path_is_resolved(connect.paths, parse, present, n);
}

/// The search is about `n` paths.
spec fn check_is_about(check: ExistingStepModel, n: nat) -> bool {
    &&& check.wf()
    &&& match check {
        ExistingStepModel::Find { paths, .. } => paths.len() == n,
        ExistingStepModel::ReadConnection { paths, .. } => paths.len() == n,
        ExistingStepModel::Resolve { resolution, .. } => resolution.is_about(n),
        _ => true,
    }
}

/// How many answers the search can still take.
spec fn check_rank(check: ExistingStepModel, n: int) -> int {
    match check {
        ExistingStepModel::Find { .. } => 2 * n + 5,
        ExistingStepModel::ReadConnection { .. } => 2 * n + 4,
        ExistingStepModel::Resolve { resolution, .. } => resolution.open_questions() + 3,
        ExistingStepModel::OpenPaths { .. } => 3,
        ExistingStepModel::ShowErrors { .. } => 2,
        ExistingStepModel::Navigate { .. } => 1,
        ExistingStepModel::Done(_) => 0,
    }
}

proof fn lemma_check_rank(check: ExistingStepModel, event: EventModel, n: nat)
    requires
        check_is_about(check, n),
    ensures
        check_is_about(check.next(event), n),
        0 <= check_rank(check.next(event), n as int) <= 2 * n + 5,
        check.next(event) != check ==> check_rank(check.next(event), n as int) < check_rank(
            check,
            n as int,
        ),
{
    match (check, event) {
        (ExistingStepModel::ReadConnection { paths, .. }, EventModel::Connection(true)) => {
            lemma_settle(paths, Seq::empty());
        },
        (ExistingStepModel::Resolve { resolution, .. }, _) => {
            lemma_answer(resolution, event, n);
        },
        _ => {},
    }
}

impl ConnectModel {
    /// All that is being done is about the paths that were asked for.
    pub closed spec fn is_about_its_paths(self) -> bool {
        &&& self.wf()
        &&& match self.step {
            ConnectStepModel::CheckFirst(check) => check_is_about(check, self.paths.len()),
            ConnectStepModel::Resolve(resolution) => resolution.is_about(
                self.paths.len(),
            ),
            ConnectStepModel::Lock { paths, .. } => paths.len() == self.paths.len(),
            ConnectStepModel::CheckAgain { check, paths, .. } => {
                &&& check_is_about(check, self.paths.len())
                &&& paths.len() == self.paths.len()
            },
            _ => true,
        }
    }

    /// How many answers can still be taken before there is a window to return, unless another
    /// attempt is made.
    pub closed spec fn rank(self) -> nat {
        let n = self.paths.len() as int;
        (match self.step {
            ConnectStepModel::Activate => 6 * n + 22,
            ConnectStepModel::CheckFirst(check) => 4 * n + 16 + check_rank(check, n),
            ConnectStepModel::Connect => 4 * n + 14,
            ConnectStepModel::Resolve(resolution) => 2 * n + 12 + resolution.open_questions(),
            ConnectStepModel::Lock { .. } => 2 * n + 12,
            ConnectStepModel::CheckAgain { check, .. } => 6 + check_rank(check, n),
            ConnectStepModel::OpenProject { .. } => 6,
            ConnectStepModel::Navigate(_) => 5,
            ConnectStepModel::FinishModal(_) => 4,
            ConnectStepModel::Prompt { .. } => 3,
            ConnectStepModel::TrackTrust { .. } => 2,
            ConnectStepModel::Retry { .. } => 2,
            ConnectStepModel::RemoveWindow(_) => 1,
            ConnectStepModel::Done(_) => 0,
        }) as nat
    }
}

proof fn lemma_rank(connect: ConnectModel, event: EventModel)
    requires
        connect.is_about_its_paths(),
    ensures
        connect.next(event).is_about_its_paths(),
        connect.next(event).step != connect.step && connect.step !is Retry ==> connect.next(
            event,
        ).rank() < connect.rank(),
{
    let n = connect.paths.len();
    match connect.step {
        ConnectStepModel::CheckFirst(check) => {
            lemma_check_rank(check, event, n);
        },
        ConnectStepModel::CheckAgain { check, .. } => {
            lemma_check_rank(check, event, n);
        },
        ConnectStepModel::Connect => {
            lemma_settle(connect.paths, Seq::empty());
        },
        ConnectStepModel::Resolve(resolution) => {
            lemma_answer(resolution, event, n);
        },
        _ => {},
    }
}

/// Connecting comes to an end: every event either changes nothing, or brings the end nearer, or
/// starts another attempt that was asked for.
pub proof fn law_connecting_comes_to_an_end(
    project: PreparedModel,
    activate_window: bool,
    events: Seq<EventModel>,
    event: EventModel,
)
    ensures
        ({
            let now = project.connecting(activate_window).run(events);
            let then = now.next(event);
            &&& then == now || then.rank() < now.rank() || now.step is Retry
            &&& now.rank() == 0 <==> now.step is Done
        }),
{
    lemma_about_its_paths(project, activate_window, events);
    let now = project.connecting(activate_window).run(events);
    lemma_rank(now, event);
    match now.step {
        ConnectStepModel::CheckFirst(check) => {
            lemma_check_rank(check, event, now.paths.len());
        },
        ConnectStepModel::CheckAgain { check, .. } => {
            lemma_check_rank(check, event, now.paths.len());
        },
        _ => {},
    }
}

proof fn lemma_about_its_paths(
    project: PreparedModel,
    activate_window: bool,
    events: Seq<EventModel>,
)
    ensures
        project.connecting(activate_window).run(events).is_about_its_paths(),
    decreases events.len(),
{
    if events.len() > 0 {
        lemma_about_its_paths(project, activate_window, events.drop_last());
        lemma_rank(project.connecting(activate_window).run(events.drop_last()), events.last());
    }
}

/// The event answers the step that is to be taken, with success.
pub open spec fn success(connect: ConnectModel) -> EventModel {
    match connect.step {
        ConnectStepModel::CheckFirst(check) => check_success(check),
        ConnectStepModel::CheckAgain { check, .. } => check_success(check),
        ConnectStepModel::Resolve(resolution) => resolution_success(resolution),
        ConnectStepModel::OpenProject { .. } => EventModel::ProjectOpened(Some(Seq::empty())),
        ConnectStepModel::Prompt { .. } => EventModel::Answered(Some(RETRY)),
        ConnectStepModel::Retry { .. } => EventModel::AttemptPrepared(true),
        _ => EventModel::Performed,
    }
}

pub open spec fn check_success(check: ExistingStepModel) -> EventModel {
    match check {
        ExistingStepModel::Find { .. } => EventModel::Found(None),
        ExistingStepModel::ReadConnection { .. } => EventModel::Connection(true),
        ExistingStepModel::Resolve { resolution, .. } => resolution_success(resolution),
        ExistingStepModel::OpenPaths { .. } => EventModel::PathsOpened(Seq::empty()),
        _ => EventModel::Performed,
    }
}

pub open spec fn resolution_success(resolution: ResolutionModel) -> EventModel {
    match resolution {
        ResolutionModel::Parse { paths, positions } => EventModel::Parsed(
            without_position(paths[positions.len() as int]),
        ),
        _ => EventModel::Probed(true),
    }
}

/// Connecting never gets stuck: as long as there is no window to return, each step has an answer
/// that leads on.
pub proof fn law_connecting_never_gets_stuck(connect: ConnectModel)
    requires
        connect.wf(),
        connect.step !is Done,
    ensures
        connect.next(success(connect)).step != connect.step,
{
    match connect.step {
        ConnectStepModel::CheckFirst(check) => {
            lemma_check_leads_on(check);
        },
        ConnectStepModel::CheckAgain { check, .. } => {
            lemma_check_leads_on(check);
        },
        ConnectStepModel::Resolve(resolution) => {
            lemma_resolution_leads_on(resolution);
        },
        _ => {},
    }
}

proof fn lemma_check_leads_on(check: ExistingStepModel)
    requires
        check.wf(),
        check !is Done,
    ensures
        check.next(check_success(check)) != check,
{
    if let ExistingStepModel::Resolve { resolution, .. } = check {
        lemma_resolution_leads_on(resolution);
    }
}

proof fn lemma_resolution_leads_on(resolution: ResolutionModel)
    requires
        resolution.wf(),
        resolution !is Done,
    ensures
        resolution.next(resolution_success(resolution)) != resolution,
{
    match resolution {
        ResolutionModel::Parse { paths, positions } => {
            lemma_settle(
                paths,
                positions.push(without_position(paths[positions.len() as int])),
            );
        },
        ResolutionModel::Probe { paths, positions, .. } => {
            lemma_settle(
                paths,
                positions.push(without_position(paths[positions.len() as int])),
            );
        },
        _ => {},
    }
}

/// The search goes on in this workspace, which is known to have a connection.
spec fn is_reusing(check: ExistingStepModel, found: ExistingWorkspace) -> bool {
    match check {
        ExistingStepModel::Resolve { found: at, .. } => at == found,
        ExistingStepModel::OpenPaths { found: at, .. } => at == found,
        ExistingStepModel::ShowErrors { found: at, .. } => at == found,
        ExistingStepModel::Navigate { found: at, .. } => at == found,
        _ => false,
    }
}

/// A project that is already open over a living connection is opened in the workspace that is open
/// on it: whatever happens from then on, no window is prepared for it, no connection is made, and
/// the window that is returned is that of the workspace. The one error that can come up is that of
/// opening the paths there.
pub proof fn law_an_open_project_is_reused(
    connection_options: RemoteOptionsModel,
    paths: Seq<PathModel>,
    open_options: OpenOptions,
    found: ExistingWorkspace,
    events: Seq<EventModel>,
)
    ensures
        ({
            let now = unopened(connection_options, paths, open_options).next(
                EventModel::Found(Some(found)),
            ).next(EventModel::Connection(true)).run(events);
            match now {
                OpenModel::Existing { .. } => true,
                OpenModel::Opened(window) => window == found.window,
                OpenModel::Failed(error) => error is Existing,
                _ => false,
            }
        }),
{
    lemma_reusing(connection_options, paths, open_options, found, events);
}

proof fn lemma_reusing(
    connection_options: RemoteOptionsModel,
    paths: Seq<PathModel>,
    open_options: OpenOptions,
    found: ExistingWorkspace,
    events: Seq<EventModel>,
)
    ensures
        ({
            let now = unopened(connection_options, paths, open_options).next(
                EventModel::Found(Some(found)),
            ).next(EventModel::Connection(true)).run(events);
            match now {
                OpenModel::Existing { check, .. } => is_reusing(check, found),
                OpenModel::Opened(window) => window == found.window,
                OpenModel::Failed(error) => error is Existing,
                _ => false,
            }
        }),
    decreases events.len(),
{
    if events.len() > 0 {
        lemma_reusing(connection_options, paths, open_options, found, events.drop_last());
    }
}

/// Nothing fails, and nobody cancels.
pub open spec fn smooth(events: Seq<EventModel>) -> bool {
    forall|i: int|
        0 <= i < events.len() ==> (#[trigger] events[i]) !is Failed && events[i] !is Cancelled
}

/// A project that turns out to be open over a living connection, when the attempt begins or once
/// its lock is taken, is not opened a second time: unless something fails or the attempt is
/// cancelled, only the window of the open workspace is returned, and a window is closed only if it
/// was opened for the project and is another one.
pub proof fn law_a_project_opened_meanwhile_is_reused(
    connect: ConnectModel,
    found: ExistingWorkspace,
    events: Seq<EventModel>,
)
    requires
        connect.step is Activate || connect.step is Lock,
        smooth(events),
    ensures
        ({
            let now = connect.next(EventModel::Performed).next(EventModel::Found(Some(found))).next(
                EventModel::Connection(true),
            ).run(events);
            match now.step {
                ConnectStepModel::CheckFirst(_) => connect.step is Activate,
                ConnectStepModel::CheckAgain { .. } => connect.step is Lock,
                ConnectStepModel::FinishModal(outcome) => outcome == AttemptOutcomeModel::Opened(
                    found.window,
                ),
                ConnectStepModel::RemoveWindow(window) => {
                    &&& window == found.window
                    &&& connect.created_new_window()
                    &&& found.window != connect.window
                },
                ConnectStepModel::Done(window) => window == found.window,
                _ => false,
            }
        }),
{
    lemma_meanwhile(connect, found, events);
}

proof fn lemma_meanwhile(
    connect: ConnectModel,
    found: ExistingWorkspace,
    events: Seq<EventModel>,
)
    requires
        connect.step is Activate || connect.step is Lock,
        smooth(events),
    ensures
        ({
            let now = connect.next(EventModel::Performed).next(EventModel::Found(Some(found))).next(
                EventModel::Connection(true),
            ).run(events);
            &&& now == (ConnectModel { step: now.step, ..connect })
            &&& match now.step {
                ConnectStepModel::CheckFirst(check) => connect.step is Activate && is_reusing(
                    check,
                    found,
                ),
                ConnectStepModel::CheckAgain { check, .. } => connect.step is Lock && is_reusing(
                    check,
                    found,
                ),
                ConnectStepModel::FinishModal(outcome) => outcome == AttemptOutcomeModel::Opened(
                    found.window,
                ),
                ConnectStepModel::RemoveWindow(window) => {
                    &&& window == found.window
                    &&& connect.created_new_window()
                    &&& found.window != connect.window
                },
                ConnectStepModel::Done(window) => window == found.window,
                _ => false,
            }
        }),
    decreases events.len(),
{
    if events.len() > 0 {
        let earlier = events.drop_last();
        assert forall|i: int| 0 <= i < earlier.len() implies (#[trigger] earlier[i]) !is Failed
            && earlier[i] !is Cancelled by {
            assert(earlier[i] == events[i]);
        }
        lemma_meanwhile(connect, found, earlier);
        assert(events[events.len() - 1] == events.last());
    }
}

/// A project that is not open yet, or whose connection is dead, is prepared: it is not an error.
pub proof fn law_a_dead_connection_is_made_anew(
    connection_options: RemoteOptionsModel,
    paths: Seq<PathModel>,
    open_options: OpenOptions,
    found: ExistingWorkspace,
)
    ensures
        ({
            let start = unopened(connection_options, paths, open_options);
            let fresh = OpenModel::Prepare(unprepared(connection_options, paths, open_options));
            &&& start.next(EventModel::Found(None)) == fresh
            &&& start.next(EventModel::Found(Some(found))).next(EventModel::Connection(false))
                == fresh
        }),
{
}

/// A project that is not open yet is connected to from the window that was asked for, or from a new
/// one that is opened and activated for it.
pub proof fn law_a_project_is_connected_to_from_its_window(
    connection_options: RemoteOptionsModel,
    paths: Seq<PathModel>,
    open_options: OpenOptions,
    position: u64,
    opened: u64,
    initial_workspace: u64,
)
    ensures
        ({
            let fresh = unopened(connection_options, paths, open_options).next(
                EventModel::Found(None),
            );
            let window = match open_options.requesting_window {
                Some(window) => window,
                None => opened,
            };
            let reached = match open_options.requesting_window {
                Some(_) => fresh,
                None => fresh.next(EventModel::PositionFetched(position)).next(
                    EventModel::WindowOpened(opened),
                ),
            };
            reached.next(EventModel::WorkspaceRead(initial_workspace)).next(
                EventModel::AttemptPrepared(true),
            ) == OpenModel::Connect(
                PreparedModel {
                    connection_options,
                    paths,
                    open_options,
                    window,
                    initial_workspace,
                }.connecting(true),
            )
        }),
{
}

/// Once the connection is being made, opening the project cannot fail any more.
pub proof fn law_connecting_never_fails(connect: ConnectModel, events: Seq<EventModel>)
    ensures
        OpenModel::Connect(connect).run(events) !is Failed,
        OpenModel::Connect(connect).run(events) is Connect || OpenModel::Connect(connect).run(
            events,
        ) is Opened,
    decreases events.len(),
{
    if events.len() > 0 {
        law_connecting_never_fails(connect, events.drop_last());
    }
}

/// A search for an open workspace is made over the connection and with the options asked for.
pub open spec fn searches_as_asked(
    check: ExistingStepModel,
    connection_options: RemoteOptionsModel,
    open_options: OpenOptions,
) -> bool {
    check matches ExistingStepModel::Find { connection, options, .. } ==> connection
        == connection_options && options == open_options
}

/// The project is opened in a window that was there for it.
spec fn open_invariant(
    connection_options: RemoteOptionsModel,
    paths: Seq<PathModel>,
    open_options: OpenOptions,
    events: Seq<EventModel>,
) -> bool {
    match unopened(connection_options, paths, open_options).run(events) {
        OpenModel::Existing { check, connection_options: options, paths: asked, open_options: how }
            => {
            &&& is_reported(check, events)
            &&& searches_as_asked(check, connection_options, open_options)
            &&& options == connection_options
            &&& asked == paths
            &&& how == open_options
        },
        OpenModel::Prepare(preparation) => {
            &&& preparation.connection_options == connection_options
            &&& preparation.paths == paths
            &&& preparation.open_options == open_options
            &&& match preparation.step {
                PreparationStepModel::ReadWorkspace { window } => own_window(
                    open_options,
                    events,
                    window,
                ),
                PreparationStepModel::ActivateWindow { window } => own_window(
                    open_options,
                    events,
                    window,
                ),
                PreparationStepModel::ShowModal { window, workspace } => {
                    &&& own_window(open_options, events, window)
                    &&& events.contains(EventModel::WorkspaceRead(workspace))
                },
                PreparationStepModel::Ready { window, workspace } => {
                    &&& own_window(open_options, events, window)
                    &&& events.contains(EventModel::WorkspaceRead(workspace))
                },
                _ => open_options.requesting_window is None || preparation.step is Failed,
            }
        },
        OpenModel::Connect(connect) => {
            &&& connect.connection_options == connection_options
            &&& connect.paths == paths
            &&& connect.open_options == open_options
            &&& own_window(open_options, events, connect.window)
            &&& events.contains(EventModel::WorkspaceRead(connect.initial_workspace))
            &&& match connect.step {
                ConnectStepModel::CheckFirst(check) => {
                    &&& is_reported(check, events)
                    &&& searches_as_asked(check, connection_options, open_options)
                },
                ConnectStepModel::CheckAgain { check, .. } => {
                    &&& is_reported(check, events)
                    &&& searches_as_asked(check, connection_options, open_options)
                },
                ConnectStepModel::FinishModal(AttemptOutcomeModel::Opened(window)) => fit_window(
                    open_options,
                    events,
                    window,
                ),
                ConnectStepModel::RemoveWindow(window) => {
                    &&& fit_window(open_options, events, window)
                    &&& open_options.requesting_window is None
                },
                _ => true,
            }
        },
        OpenModel::Opened(window) => fit_window(open_options, events, window),
        OpenModel::Failed(_) => true,
    }
}

/// The window is the project's own, or that of a workspace that was found to be open on the project
/// and to have a connection.
pub open spec fn fit_window(
    open_options: OpenOptions,
    events: Seq<EventModel>,
    window: u64,
) -> bool {
    own_window(open_options, events, window) || reported_alive(events, window)
}

/// However opening a project goes, the window that is returned is the one that was asked for, or a
/// new one if none was asked for, or that of a workspace that was found to be open on the project
/// with a living connection; and a window is only ever closed if none was asked for.
pub proof fn law_the_window_of_an_opened_project(
    connection_options: RemoteOptionsModel,
    paths: Seq<PathModel>,
    open_options: OpenOptions,
    events: Seq<EventModel>,
)
    ensures
        ({
            let now = unopened(connection_options, paths, open_options).run(events);
            &&& now matches OpenModel::Opened(window) ==> fit_window(open_options, events, window)
            &&& now matches OpenModel::Connect(connect) ==> (connect.step is RemoveWindow
                ==> open_options.requesting_window is None)
        }),
{
    lemma_open(connection_options, paths, open_options, events);
}

/// Whenever an open workspace is looked for, and whenever a connection is made, it is for the
/// connection that was asked for, and with the options that were asked for. The connection is made
/// from the project's own window, and from a workspace that was reported.
pub proof fn law_everything_is_done_as_asked(
    connection_options: RemoteOptionsModel,
    paths: Seq<PathModel>,
    open_options: OpenOptions,
    events: Seq<EventModel>,
)
    ensures
        ({
            let now = unopened(connection_options, paths, open_options).run(events);
            &&& now matches OpenModel::Existing { check, .. } ==> searches_as_asked(
                check,
                connection_options,
                open_options,
            )
            &&& now matches OpenModel::Connect(connect) ==> {
                &&& connect.connection_options == connection_options
                &&& connect.paths == paths
                &&& connect.open_options == open_options
                &&& own_window(open_options, events, connect.window)
                &&& events.contains(EventModel::WorkspaceRead(connect.initial_workspace))
                &&& connect.step matches ConnectStepModel::CheckFirst(check) ==> searches_as_asked(
                    check,
                    connection_options,
                    open_options,
                )
                &&& connect.step matches ConnectStepModel::CheckAgain { check, .. }
                    ==> searches_as_asked(check, connection_options, open_options)
            }
        }),
{
    lemma_open(connection_options, paths, open_options, events);
}

proof fn lemma_open(
    connection_options: RemoteOptionsModel,
    paths: Seq<PathModel>,
    open_options: OpenOptions,
    events: Seq<EventModel>,
)
    ensures
        open_invariant(connection_options, paths, open_options, events),
    decreases events.len(),
{
    if events.len() > 0 {
        let earlier = events.drop_last();
        let last = events.last();
        let before = unopened(connection_options, paths, open_options).run(earlier);
        lemma_open(connection_options, paths, open_options, earlier);
        assert forall|window: u64| #[trigger]
            reported_alive(earlier, window) implies reported_alive(events, window) by {
            lemma_reported_earlier(events, window);
        }
        assert forall|event: EventModel| #[trigger] earlier.contains(event) implies events.contains(
            event,
        ) by {
            let i = choose|i: int| 0 <= i < earlier.len() && earlier[i] == event;
            assert(events[i] == event);
        }
        assert(events[events.len() - 1] == last);
        assert(events.contains(last));
        match before {
            OpenModel::Existing { check, .. } => {
                lemma_is_reported(check, events);
            },
            OpenModel::Connect(connect) => {
                match connect.step {
                    ConnectStepModel::CheckFirst(check) => {
                        lemma_is_reported(check, events);
                    },
                    ConnectStepModel::CheckAgain { check, .. } => {
                        lemma_is_reported(check, events);
                    },
                    _ => {},
                }
            },
            _ => {},
        }
    }
}

} // verus!
