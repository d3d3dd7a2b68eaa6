//! What each report leads to, from one step to the next.

use crate::connect::{
    prompt_answers, AttemptOutcomeModel, ConnectModel, ConnectStepModel, RemoteProjectConnect,
};
use crate::connection::RemoteOptionsModel;
use crate::events::EventModel;
use crate::existing::{unsearched, ExistingStepModel, OutcomeModel};
use crate::navigate::targets;
use crate::open::{unopened, OpenErrorModel, OpenModel};
use crate::paths::{PathModel, PositionModel};
use crate::prepare::{
    unprepared, PreparationModel, PreparationStepModel, PrepareErrorModel, PreparedModel,
    RemoteProjectPreparation,
};
use crate::resolve::{settle, ResolutionModel};
use crate::workspace::{
    errors_of, items_of, ExistingWorkspace, OpenOptions, OpeningModel,
};
use vstd::prelude::*;

verus! {

/// A search looks for the paths over the connection and with the options that it was started with.
/// Without a workspace it comes to nothing; otherwise the connection of the workspace is read, and
/// it comes to nothing if that is dead.
pub proof fn law_a_search_comes_to_a_live_workspace_or_to_nothing(
    connection: RemoteOptionsModel,
    paths: Seq<PathModel>,
    known: Option<Seq<PositionModel>>,
    options: OpenOptions,
    activate_window: bool,
    found: ExistingWorkspace,
)
    ensures
        ({
            let search = unsearched(connection, paths, known, options, activate_window);
            let reading = search.next(EventModel::Found(Some(found)));
            &&& search == (ExistingStepModel::Find {
                connection,
                paths,
                known,
                options,
                activate_window,
            })
            &&& search.next(EventModel::Found(None)) == ExistingStepModel::Done(
                OutcomeModel::Nothing,
            )
            &&& reading == (ExistingStepModel::ReadConnection {
                found,
                paths,
                known,
                activate_window,
            })
            &&& reading.next(EventModel::Connection(false)) == ExistingStepModel::Done(
                OutcomeModel::Nothing,
            )
        }),
{
}

/// In a workspace with a living connection, the paths are opened as they are if their positions are
/// known, and otherwise once they are resolved. What shows up is what was found to fit, and no
/// window is asked for.
pub proof fn law_paths_are_opened_in_the_live_workspace(
    found: ExistingWorkspace,
    paths: Seq<PathModel>,
    known: Option<Seq<PositionModel>>,
    activate_window: bool,
)
    ensures
        ({
            let alive = ExistingStepModel::ReadConnection {
                found,
                paths,
                known,
                activate_window,
            }.next(EventModel::Connection(true));
            alive == (match (known, settle(paths, Seq::empty())) {
                (Some(positions), _) => ExistingStepModel::OpenPaths {
                    found,
                    paths,
                    positions,
                    options: OpenOptions {
                        visible: Some(found.open_visible),
                        requesting_window: None,
                    },
                    activate_window,
                },
                (None, ResolutionModel::Done { paths, positions }) => ExistingStepModel::OpenPaths {
                    found,
                    paths,
                    positions,
                    options: OpenOptions {
                        visible: Some(found.open_visible),
                        requesting_window: None,
                    },
                    activate_window,
                },
                (None, resolution) => ExistingStepModel::Resolve {
                    found,
                    resolution,
                    activate_window,
                },
            })
        }),
{
}

/// Whatever is reported while paths are resolved for a workspace is an answer to the resolution,
/// and once that is done, its paths are opened there.
pub proof fn law_resolved_paths_are_opened_in_the_workspace(
    found: ExistingWorkspace,
    resolution: ResolutionModel,
    activate_window: bool,
    event: EventModel,
)
    ensures
        ({
            let now = ExistingStepModel::Resolve { found, resolution, activate_window }.next(event);
            now == (match resolution.next(event) {
                ResolutionModel::Done { paths, positions } => ExistingStepModel::OpenPaths {
                    found,
                    paths,
                    positions,
                    options: OpenOptions {
                        visible: Some(found.open_visible),
                        requesting_window: None,
                    },
                    activate_window,
                },
                further => ExistingStepModel::Resolve {
                    found,
                    resolution: further,
                    activate_window,
                },
            })
        }),
{
}

/// Once the paths are opened in a workspace, every error among them is shown, then every cursor
/// that is owed is moved, and then the window of the workspace is what came of it. If they cannot
/// be opened, the error is.
pub proof fn law_errors_are_shown_and_all_cursors_moved(
    found: ExistingWorkspace,
    paths: Seq<PathModel>,
    positions: Seq<PositionModel>,
    options: OpenOptions,
    activate_window: bool,
    openings: Seq<OpeningModel>,
    error: Seq<char>,
)
    ensures
        ({
            let opening = ExistingStepModel::OpenPaths {
                found,
                paths,
                positions,
                options,
                activate_window,
            };
            let shown = opening.next(EventModel::PathsOpened(openings));
            let moved = shown.next(EventModel::Performed);
            &&& opening.next(EventModel::Failed(error)) == ExistingStepModel::Done(
                OutcomeModel::Failed(error),
            )
            &&& shown == (ExistingStepModel::ShowErrors {
                found,
                errors: errors_of(openings),
                navigations: targets(items_of(openings), positions),
            })
            &&& moved == (ExistingStepModel::Navigate {
                found,
                navigations: targets(items_of(openings), positions),
            })
            &&& moved.next(EventModel::Performed) == ExistingStepModel::Done(
                OutcomeModel::Opened(found.window),
            )
        }),
{
}

/// Showing errors and moving cursors take no other report than that it was done, and change neither
/// the workspace nor the cursors that are still to be moved.
pub proof fn law_what_is_shown_is_kept(step: ExistingStepModel)
    ensures
        step matches ExistingStepModel::ShowErrors { found, navigations, .. } ==> step.next(
            EventModel::Performed,
        ) == (ExistingStepModel::Navigate { found, navigations }),
        step matches ExistingStepModel::Navigate { found, .. } ==> step.next(EventModel::Performed)
            == ExistingStepModel::Done(OutcomeModel::Opened(found.window)),
{
}

/// A report that is no answer to the step changes nothing.
pub proof fn law_a_search_takes_only_answers(step: ExistingStepModel, event: EventModel)
    requires
        match step {
            ExistingStepModel::Find { .. } => event !is Found,
            ExistingStepModel::ReadConnection { .. } => event !is Connection,
            ExistingStepModel::Resolve { .. } => false,
            ExistingStepModel::OpenPaths { .. } => event !is Failed && event !is PathsOpened,
            ExistingStepModel::ShowErrors { .. } => event !is Performed,
            ExistingStepModel::Navigate { .. } => event !is Performed,
            ExistingStepModel::Done(_) => true,
        },
    ensures
        step.next(event) == step,
{
}

/// Only searching, looking for a path on the remote machine and opening paths take time.
pub proof fn law_what_takes_time(step: ExistingStepModel)
    ensures
        step.takes_time() <==> step is Find || step is OpenPaths || (
        step matches ExistingStepModel::Resolve { resolution: ResolutionModel::Probe { .. }, .. }),
{
}

/// Connecting starts with the window, for all that was asked for.
pub proof fn law_connecting_takes_over_what_was_asked_for(
    project: PreparedModel,
    activate_window: bool,
)
    ensures
        ({
            let start = project.connecting(activate_window);
            &&& start.connection_options == project.connection_options
            &&& start.paths == project.paths
            &&& start.open_options == project.open_options
            &&& start.window == project.window
            &&& start.initial_workspace == project.initial_workspace
            &&& start.activate_window == activate_window
            &&& start.step is Activate
        }),
{
}

/// Whatever is reported, what was asked for stays what was asked for.
pub proof fn law_what_was_asked_for_stays(connect: ConnectModel, event: EventModel)
    ensures
        connect.next(event).connection_options == connect.connection_options,
        connect.next(event).paths == connect.paths,
        connect.next(event).open_options == connect.open_options,
        connect.next(event).window == connect.window,
        connect.next(event).initial_workspace == connect.initial_workspace,
        connect.next(event).activate_window == connect.activate_window,
{
}

/// A failed attempt is always asked about, whatever was to be connected to and wherever it failed:
/// the modal is told, and then the error is shown with the message for that connection.
pub proof fn law_a_failed_attempt_is_asked_about(connect: ConnectModel, error: Seq<char>)
    requires
        match connect.step {
            ConnectStepModel::Activate => true,
            ConnectStepModel::Connect => true,
            ConnectStepModel::OpenProject { .. } => true,
            ConnectStepModel::CheckFirst(check) => check is OpenPaths,
            ConnectStepModel::CheckAgain { check, .. } => check is OpenPaths,
            _ => false,
        },
    ensures
        ({
            let failed = connect.next(EventModel::Failed(error));
            let opening_failed = connect.step is OpenProject;
            &&& failed.step == ConnectStepModel::FinishModal(
                AttemptOutcomeModel::Failed { error, opening_failed },
            )
            &&& failed.next(EventModel::Performed).step == (ConnectStepModel::Prompt {
                message: match connect.connection_options {
                    RemoteOptionsModel::Ssh(_) => "Failed to connect over SSH"@,
                    RemoteOptionsModel::Wsl(_) => "Failed to connect to WSL"@,
                    RemoteOptionsModel::Docker(_) => "Failed to connect to Dev Container"@,
                    RemoteOptionsModel::Mock(_) => "Failed to connect to mock server"@,
                },
                error,
                opening_failed,
            })
        }),
{
}

/// The first answer to a failure is to retry, the second to cancel.
pub proof fn law_a_failure_can_be_retried_or_cancelled(answers: [&'static str; 2])
    requires
        call_ensures(prompt_answers, (), answers),
    ensures
        answers@[0]@ == "Retry"@,
        answers@[1]@ == "Cancel"@,
{
}

/// Whatever an attempt came to, the modal is told first. A failure is then asked about. A project
/// that is open is in its window, and another window that was opened for it is closed. Without a
/// project, a window that was opened for it is closed.
pub proof fn law_what_follows_an_attempt(connect: ConnectModel, outcome: AttemptOutcomeModel)
    requires
        connect.step == ConnectStepModel::FinishModal(outcome),
    ensures
        ({
            let told = connect.next(EventModel::Performed).step;
            let own = connect.open_options.requesting_window is None;
            match outcome {
                AttemptOutcomeModel::Opened(window) => told == (if own && window
                    != connect.window {
                    ConnectStepModel::RemoveWindow(window)
                } else {
                    ConnectStepModel::Done(window)
                }),
                AttemptOutcomeModel::NotOpened => told == (if own {
                    ConnectStepModel::RemoveWindow(connect.window)
                } else {
                    ConnectStepModel::Done(connect.window)
                }),
                AttemptOutcomeModel::Failed { error, opening_failed } => told == (
                ConnectStepModel::Prompt {
                    message: connect.connection_options.failure(),
                    error,
                    opening_failed,
                }),
            }
        }),
{
}

/// The first answer retries from the stand-in, and everything starts over if that can be prepared.
/// Any other answer, or none, gives up; the stand-in asks for trust first if only the opening
/// failed. A prompt that cannot be shown leaves the window alone.
pub proof fn law_what_follows_an_answer(
    connect: ConnectModel,
    message: Seq<char>,
    error: Seq<char>,
    opening_failed: bool,
    answer: Option<usize>,
    reason: Seq<char>,
)
    requires
        connect.step == (ConnectStepModel::Prompt { message, error, opening_failed }),
    ensures
        ({
            let answered = connect.next(EventModel::Answered(answer));
            let given_up = if connect.open_options.requesting_window is None {
                ConnectStepModel::RemoveWindow(connect.window)
            } else {
                ConnectStepModel::Done(connect.window)
            };
            let workspace = connect.initial_workspace;
            &&& answer == Some(0usize) ==> {
                &&& answered.step == (ConnectStepModel::Retry { workspace })
                &&& answered.next(EventModel::AttemptPrepared(true)).step is Activate
                &&& answered.next(EventModel::AttemptPrepared(false)).step == given_up
            }
            &&& answer != Some(0usize) && opening_failed ==> {
                &&& answered.step == (ConnectStepModel::TrackTrust { workspace })
                &&& answered.next(EventModel::Performed).step == given_up
            }
            &&& answer != Some(0usize) && !opening_failed ==> answered.step == given_up
            &&& connect.next(EventModel::Failed(reason)).step == ConnectStepModel::Done(
                connect.window,
            )
        }),
{
}

/// The steps after a retry, a request for trust and the closing of a window do not depend on how
/// they came about.
pub proof fn law_what_follows_the_last_steps(connect: ConnectModel)
    ensures
        ({
            let given_up = if connect.open_options.requesting_window is None {
                ConnectStepModel::RemoveWindow(connect.window)
            } else {
                ConnectStepModel::Done(connect.window)
            };
            &&& connect.step is Retry ==> {
                &&& connect.next(EventModel::AttemptPrepared(true)).step is Activate
                &&& connect.next(EventModel::AttemptPrepared(false)).step == given_up
            }
            &&& connect.step is TrackTrust ==> connect.next(EventModel::Performed).step == given_up
            &&& connect.step matches ConnectStepModel::RemoveWindow(window) ==> connect.next(
                EventModel::Performed,
            ).step == ConnectStepModel::Done(window)
        }),
{
}

/// An attempt can be cancelled exactly while it waits for its window, for another machine or for
/// somebody else. Then the modal is told, without a question, and the project is given up; at any
/// other point nothing changes.
pub proof fn law_an_attempt_can_be_cancelled_while_it_waits(connect: ConnectModel)
    ensures
        connect.cancellable() == (match connect.step {
            ConnectStepModel::Activate => true,
            ConnectStepModel::Connect => true,
            ConnectStepModel::Lock { .. } => true,
            ConnectStepModel::OpenProject { .. } => true,
            ConnectStepModel::Resolve(ResolutionModel::Probe { .. }) => true,
            ConnectStepModel::CheckFirst(check) => check.takes_time(),
            ConnectStepModel::CheckAgain { check, .. } => check.takes_time(),
            _ => false,
        }),
        connect.cancellable() ==> connect.next(EventModel::Cancelled).step
            == ConnectStepModel::FinishModal(AttemptOutcomeModel::NotOpened),
        !connect.cancellable() ==> connect.next(EventModel::Cancelled).step == connect.step,
{
}

/// The lock is held from the second look for an open workspace until the cursors are moved.
pub proof fn law_when_the_lock_is_held(connect: ConnectModel)
    ensures
        connect.holds_lock() <==> connect.step is CheckAgain || connect.step is OpenProject
            || connect.step is Navigate,
{
}

/// Once the window is reached, the project is looked for, with all that was asked for. What comes
/// of that search decides whether to connect.
pub proof fn law_the_project_is_looked_for_before_connecting(
    connect: ConnectModel,
    check: ExistingStepModel,
    event: EventModel,
)
    ensures
        connect.step is Activate ==> connect.next(EventModel::Performed).step
            == ConnectStepModel::CheckFirst(
            ExistingStepModel::Find {
                connection: connect.connection_options,
                paths: connect.paths,
                known: None,
                options: connect.open_options,
                activate_window: connect.activate_window,
            },
        ),
        connect.step == ConnectStepModel::CheckFirst(check) && event !is Cancelled
            ==> connect.next(event).step == (match check.next(event) {
            ExistingStepModel::Done(OutcomeModel::Opened(window)) => ConnectStepModel::FinishModal(
                AttemptOutcomeModel::Opened(window),
            ),
            ExistingStepModel::Done(OutcomeModel::Nothing) => ConnectStepModel::Connect,
            ExistingStepModel::Done(OutcomeModel::Failed(error)) => ConnectStepModel::FinishModal(
                AttemptOutcomeModel::Failed { error, opening_failed: false },
            ),
            further => ConnectStepModel::CheckFirst(further),
        }),
{
}

/// Once the connection is made, the paths that were asked for are resolved, and then the project at
/// the resolved paths is locked.
pub proof fn law_resolved_paths_are_locked(
    connect: ConnectModel,
    resolution: ResolutionModel,
    event: EventModel,
)
    requires
        ({
            ||| connect.step is Connect && event is Performed && resolution == settle(
                connect.paths,
                Seq::empty(),
            )
            ||| connect.step matches ConnectStepModel::Resolve(earlier) && event !is Cancelled
                && resolution == earlier.next(event)
        }),
    ensures
        connect.next(event).step == (match resolution {
            ResolutionModel::Done { paths, positions } => ConnectStepModel::Lock {
                paths,
                positions,
            },
            _ => ConnectStepModel::Resolve(resolution),
        }),
{
}

/// Once the lock is taken, the project at the locked paths is looked for again, with all that was
/// asked for. What comes of that search decides whether it is opened, at those very paths.
pub proof fn law_the_project_is_looked_for_again_under_the_lock(
    connect: ConnectModel,
    paths: Seq<PathModel>,
    positions: Seq<PositionModel>,
    check: ExistingStepModel,
    event: EventModel,
)
    ensures
        connect.step == (ConnectStepModel::Lock { paths, positions }) ==> connect.next(
            EventModel::Performed,
        ).step == (ConnectStepModel::CheckAgain {
            check: ExistingStepModel::Find {
                connection: connect.connection_options,
                paths,
                known: Some(positions),
                options: connect.open_options,
                activate_window: connect.activate_window,
            },
            paths,
            positions,
        }),
        connect.step == (ConnectStepModel::CheckAgain { check, paths, positions })
            && event !is Cancelled ==> connect.next(event).step == (match check.next(event) {
            ExistingStepModel::Done(OutcomeModel::Opened(window)) => ConnectStepModel::FinishModal(
                AttemptOutcomeModel::Opened(window),
            ),
            ExistingStepModel::Done(OutcomeModel::Nothing) => ConnectStepModel::OpenProject {
                paths,
                positions,
            },
            ExistingStepModel::Done(OutcomeModel::Failed(error)) => ConnectStepModel::FinishModal(
                AttemptOutcomeModel::Failed { error, opening_failed: false },
            ),
            further => ConnectStepModel::CheckAgain { check: further, paths, positions },
        }),
{
}

/// Once the project is opened over the new connection, every cursor that is owed is moved, and the
/// project is open in the window that was prepared for it. Without a workspace it is not open.
pub proof fn law_an_opened_project_is_in_its_window(
    connect: ConnectModel,
    paths: Seq<PathModel>,
    positions: Seq<PositionModel>,
    items: Seq<Option<u64>>,
)
    requires
        connect.step == (ConnectStepModel::OpenProject { paths, positions }),
    ensures
        ({
            let opened = connect.next(EventModel::ProjectOpened(Some(items)));
            &&& opened.step == ConnectStepModel::Navigate(targets(items, positions))
            &&& opened.next(EventModel::Performed).step == ConnectStepModel::FinishModal(
                AttemptOutcomeModel::Opened(connect.window),
            )
            &&& connect.next(EventModel::ProjectOpened(None)).step == ConnectStepModel::FinishModal(
                AttemptOutcomeModel::NotOpened,
            )
        }),
{
}

/// Moving the cursors leads to nothing else than that the project is open in its window.
pub proof fn law_moved_cursors_end_the_attempt(connect: ConnectModel)
    requires
        connect.step is Navigate,
    ensures
        connect.next(EventModel::Performed).step == ConnectStepModel::FinishModal(
            AttemptOutcomeModel::Opened(connect.window),
        ),
{
}

/// A report that is no answer to the step changes nothing.
pub proof fn law_connecting_takes_only_answers(connect: ConnectModel, event: EventModel)
    requires
        event !is Cancelled,
        match connect.step {
            ConnectStepModel::Activate => event !is Performed && event !is Failed,
            ConnectStepModel::CheckFirst(_) => false,
            ConnectStepModel::Connect => event !is Performed && event !is Failed,
            ConnectStepModel::Resolve(_) => false,
            ConnectStepModel::Lock { .. } => event !is Performed,
            ConnectStepModel::CheckAgain { .. } => false,
            ConnectStepModel::OpenProject { .. } => event !is Failed && event !is ProjectOpened,
            ConnectStepModel::Navigate(_) => event !is Performed,
            ConnectStepModel::FinishModal(_) => event !is Performed,
            ConnectStepModel::Prompt { .. } => event !is Failed && event !is Answered,
            ConnectStepModel::TrackTrust { .. } => event !is Performed,
            ConnectStepModel::Retry { .. } => event !is AttemptPrepared,
            ConnectStepModel::RemoveWindow(_) => event !is Performed,
            ConnectStepModel::Done(_) => true,
        },
    ensures
        connect.next(event) == connect,
{
}

/// A window was opened for the project exactly if none was asked for.
pub proof fn law_a_window_is_new_unless_one_was_asked_for(
    connect: RemoteProjectConnect,
    created: bool,
    preparation: RemoteProjectPreparation,
    creates: bool,
)
    requires
        call_ensures(RemoteProjectConnect::created_new_window, (&connect,), created),
        call_ensures(RemoteProjectPreparation::created_new_window, (&preparation,), creates),
    ensures
        created <==> connect.open_options.requesting_window is None,
        creates <==> preparation.open_options.requesting_window is None,
{
}

/// A project is prepared with all that was asked for, in the window that was asked for. If none
/// was, the position for a new one is looked up first.
pub proof fn law_a_project_is_prepared_where_asked(
    connection_options: RemoteOptionsModel,
    paths: Seq<PathModel>,
    open_options: OpenOptions,
)
    ensures
        ({
            let start = unprepared(connection_options, paths, open_options);
            &&& start.connection_options == connection_options
            &&& start.paths == paths
            &&& start.open_options == open_options
            &&& open_options.requesting_window matches Some(window) ==> start.step == (
            PreparationStepModel::ReadWorkspace { window })
            &&& open_options.requesting_window is None ==> start.step is FetchPosition
        }),
{
}

/// What a preparation does next. A new window is opened at the position that was looked up, as a
/// placeholder that does not ask for trust. The modal is shown in the workspace that was reported
/// for the window, and both are ready once it is shown. An error ends the preparation. Nothing else
/// changes it, and what was asked for stays.
pub proof fn law_a_preparation_goes_step_by_step(preparation: PreparationModel, event: EventModel)
    ensures
        ({
            let now = preparation.next(event);
            &&& now.connection_options == preparation.connection_options
            &&& now.paths == preparation.paths
            &&& now.open_options == preparation.open_options
            &&& match (preparation.step, event) {
                (
                    PreparationStepModel::ReadWorkspace { window },
                    EventModel::WorkspaceRead(workspace),
                ) => now.step == (PreparationStepModel::ShowModal { window, workspace }),
                (
                    PreparationStepModel::ActivateWindow { window },
                    EventModel::WorkspaceRead(workspace),
                ) => now.step == (PreparationStepModel::ShowModal { window, workspace }),
                (PreparationStepModel::FetchPosition, EventModel::PositionFetched(position)) =>
                    now.step == (PreparationStepModel::OpenWindow {
                    position,
                    placeholder: true,
                    init_worktree_trust: false,
                }),
                (PreparationStepModel::OpenWindow { .. }, EventModel::WindowOpened(window)) =>
                    now.step == (PreparationStepModel::ActivateWindow { window }),
                (
                    PreparationStepModel::ShowModal { window, workspace },
                    EventModel::AttemptPrepared(ready),
                ) => now.step == (if ready {
                    PreparationStepModel::Ready { window, workspace }
                } else {
                    PreparationStepModel::Failed(PrepareErrorModel::Modal)
                }),
                (PreparationStepModel::FetchPosition, EventModel::Failed(error)) => now.step
                    == PreparationStepModel::Failed(PrepareErrorModel::Position(error)),
                (PreparationStepModel::ReadWorkspace { .. }, EventModel::Failed(error)) => now.step
                    == PreparationStepModel::Failed(PrepareErrorModel::Window(error)),
                (PreparationStepModel::OpenWindow { .. }, EventModel::Failed(error)) => now.step
                    == PreparationStepModel::Failed(PrepareErrorModel::Window(error)),
                (PreparationStepModel::ActivateWindow { .. }, EventModel::Failed(error)) =>
                    now.step == PreparationStepModel::Failed(PrepareErrorModel::Window(error)),
                _ => now.step == preparation.step,
            }
        }),
{
}

/// A preparation has come to an end exactly if the window is ready or it failed: with the project
/// that was asked for, in that window and that workspace, or with that error.
pub proof fn law_what_a_preparation_comes_to(preparation: PreparationModel)
    ensures
        match preparation.step {
            PreparationStepModel::Ready { window, workspace } => {
                &&& preparation.outcome() matches Some(Ok(project))
                &&& project.connection_options == preparation.connection_options
                &&& project.paths == preparation.paths
                &&& project.open_options == preparation.open_options
                &&& project.window == window
                &&& project.initial_workspace == workspace
            },
            PreparationStepModel::Failed(error) => preparation.outcome() == Some(
                Err::<PreparedModel, PrepareErrorModel>(error),
            ),
            _ => preparation.outcome() is None,
        },
{
}

/// An error says what went wrong.
pub proof fn law_what_an_error_says(prepare: PrepareErrorModel, open: OpenErrorModel)
    ensures
        match prepare {
            PrepareErrorModel::Position(_) => prepare.message()
                == "fetching remote workspace position from db"@,
            PrepareErrorModel::Window(error) => prepare.message() == error,
            PrepareErrorModel::Modal => prepare.message()
                == "remote connection modal could not be opened"@,
        },
        match open {
            OpenErrorModel::Existing(error) => open.message() == error,
            OpenErrorModel::Prepare(error) => open.message() == error.message(),
        },
{
}

/// Opening a project starts with looking for it, with all that was asked for, in order to activate
/// its window.
pub proof fn law_opening_starts_with_a_search(
    connection_options: RemoteOptionsModel,
    paths: Seq<PathModel>,
    open_options: OpenOptions,
)
    ensures
        unopened(connection_options, paths, open_options) == (OpenModel::Existing {
            check: ExistingStepModel::Find {
                connection: connection_options,
                paths,
                known: None,
                options: open_options,
                activate_window: true,
            },
            connection_options,
            paths,
            open_options,
        }),
{
}

/// What the search comes to decides whether the project is prepared; a project that is ready is
/// connected to, and its window is activated; and what connecting comes to is the window to return.
/// An error of the search or of the preparation is the error to return. What is over stays over.
pub proof fn law_opening_goes_from_one_part_to_the_next(open: OpenModel, event: EventModel)
    ensures
        ({
            let now = open.next(event);
            match open {
                OpenModel::Existing { check, connection_options, paths, open_options } =>
                    match check.next(event) {
                    ExistingStepModel::Done(OutcomeModel::Opened(window)) => now
                        == OpenModel::Opened(window),
                    ExistingStepModel::Done(OutcomeModel::Nothing) => now == OpenModel::Prepare(
                        unprepared(connection_options, paths, open_options),
                    ),
                    ExistingStepModel::Done(OutcomeModel::Failed(error)) => now
                        == OpenModel::Failed(OpenErrorModel::Existing(error)),
                    check => now == (OpenModel::Existing {
                        check,
                        connection_options,
                        paths,
                        open_options,
                    }),
                },
                OpenModel::Prepare(preparation) => match preparation.next(event).outcome() {
                    Some(Ok(project)) => now == OpenModel::Connect(
                        ConnectModel {
                            connection_options: project.connection_options,
                            paths: project.paths,
                            open_options: project.open_options,
                            window: project.window,
                            initial_workspace: project.initial_workspace,
                            activate_window: true,
                            step: ConnectStepModel::Activate,
                        },
                    ),
                    Some(Err(error)) => now == OpenModel::Failed(OpenErrorModel::Prepare(error)),
                    None => now == OpenModel::Prepare(preparation.next(event)),
                },
                OpenModel::Connect(connect) => match connect.next(event).step {
                    ConnectStepModel::Done(window) => now == OpenModel::Opened(window),
                    _ => now == OpenModel::Connect(connect.next(event)),
                },
                _ => now == open,
            }
        }),
{
}

} // verus!
