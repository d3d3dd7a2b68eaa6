//! Connecting to a remote machine and opening a project there.

use crate::connection::{RemoteConnectionOptions, RemoteOptionsModel};
use crate::events::{Event, EventModel};
use crate::existing::{
    open_existing_remote_project, unsearched, ExistingOutcome, ExistingStep, ExistingStepModel,
    OutcomeModel,
};
use crate::navigate::{navigate_to_positions, targets, Navigation};
use crate::paths::{
    clone_paths, clone_positions, PathModel, PathWithPosition, PositionModel, RemotePath,
};
use crate::prepare::{PreparedModel, PreparedRemoteProject};
use crate::resolve::{determine_paths_with_positions, settle, PathResolution, ResolutionModel};
use crate::workspace::OpenOptions;
use vstd::prelude::*;

verus! {

/// What one attempt to connect came to.
#[derive(Debug, PartialEq, Eq)]
pub enum AttemptOutcome {
    /// The project is open in this window.
    Opened(u64),
    /// The attempt was cancelled, or the project has no workspace.
    NotOpened,
    /// The attempt failed, with this error. `opening_failed` tells whether the connection was
    /// made, and only the project could not be opened over it.
    Failed { error: String, opening_failed: bool },
}

/// What an [`AttemptOutcome`] is.
pub enum AttemptOutcomeModel {
    Opened(u64),
    NotOpened,
    Failed { error: Seq<char>, opening_failed: bool },
}

impl DeepView for AttemptOutcome {
    type V = AttemptOutcomeModel;

    open spec fn deep_view(&self) -> AttemptOutcomeModel {
        match *self {
            AttemptOutcome::Opened(window) => AttemptOutcomeModel::Opened(window),
            AttemptOutcome::NotOpened => AttemptOutcomeModel::NotOpened,
            AttemptOutcome::Failed { error, opening_failed } => AttemptOutcomeModel::Failed {
                error: error@,
                opening_failed,
            },
        }
    }
}

/// What is to be done next.
#[derive(Debug, PartialEq, Eq)]
pub enum ConnectStep {
    /// Reach the window, and activate it if that was asked for.
    Activate,
    /// Open the project in a workspace that is already open on it.
    CheckFirst(ExistingStep),
    /// Connect to the remote machine.
    Connect,
    /// Answer the question that the resolution of the paths has come to.
    Resolve(PathResolution),
    /// Take the lock of the project at `paths`, and hold it for as long as
    /// [`RemoteProjectConnect::holds_lock`] says.
    Lock { paths: Vec<RemotePath>, positions: Vec<PathWithPosition> },
    /// Open the project in a workspace that somebody else opened on it before the lock was taken.
    CheckAgain { check: ExistingStep, paths: Vec<RemotePath>, positions: Vec<PathWithPosition> },
    /// Open the project at `paths` in the window, over the new connection.
    OpenProject { paths: Vec<RemotePath>, positions: Vec<PathWithPosition> },
    /// Move the cursors.
    Navigate(Vec<Navigation>),
    /// Tell the modal that the attempt is over.
    FinishModal(AttemptOutcome),
    /// Show `message`, with the error as its detail, and ask whether to try again.
    Prompt { message: &'static str, error: String, opening_failed: bool },
    /// Have the stand-in for the project in `workspace` ask for trust in its worktrees, like any
    /// other project.
    TrackTrust { workspace: u64 },
    /// Prepare another attempt in `workspace`.
    Retry { workspace: u64 },
    /// Close the window that was opened for the project, and then return this window.
    RemoveWindow(u64),
    /// The window to return.
    Done(u64),
}

/// What a [`ConnectStep`] is.
pub enum ConnectStepModel {
    Activate,
    CheckFirst(ExistingStepModel),
    Connect,
    Resolve(ResolutionModel),
    Lock { paths: Seq<PathModel>, positions: Seq<PositionModel> },
    CheckAgain {
        check: ExistingStepModel,
        paths: Seq<PathModel>,
        positions: Seq<PositionModel>,
    },
    OpenProject { paths: Seq<PathModel>, positions: Seq<PositionModel> },
    Navigate(Seq<Navigation>),
    FinishModal(AttemptOutcomeModel),
    Prompt { message: Seq<char>, error: Seq<char>, opening_failed: bool },
    TrackTrust { workspace: u64 },
    Retry { workspace: u64 },
    RemoveWindow(u64),
    Done(u64),
}

impl DeepView for ConnectStep {
    type V = ConnectStepModel;

    open spec fn deep_view(&self) -> ConnectStepModel {
        match *self {
            ConnectStep::Activate => ConnectStepModel::Activate,
            ConnectStep::CheckFirst(check) => ConnectStepModel::CheckFirst(check.deep_view()),
            ConnectStep::Connect => ConnectStepModel::Connect,
            ConnectStep::Resolve(resolution) => ConnectStepModel::Resolve(resolution.deep_view()),
            ConnectStep::Lock { paths, positions } => ConnectStepModel::Lock {
                paths: paths.deep_view(),
                positions: positions.deep_view(),
            },
            ConnectStep::CheckAgain { check, paths, positions } => ConnectStepModel::CheckAgain {
                check: check.deep_view(),
                paths: paths.deep_view(),
                positions: positions.deep_view(),
            },
            ConnectStep::OpenProject { paths, positions } => ConnectStepModel::OpenProject {
                paths: paths.deep_view(),
                positions: positions.deep_view(),
            },
            ConnectStep::Navigate(navigations) => ConnectStepModel::Navigate(navigations@),
            ConnectStep::FinishModal(outcome) => ConnectStepModel::FinishModal(
                outcome.deep_view(),
            ),
            ConnectStep::Prompt { message, error, opening_failed } => ConnectStepModel::Prompt {
                message: message@,
                error: error@,
                opening_failed,
            },
            ConnectStep::TrackTrust { workspace } => ConnectStepModel::TrackTrust { workspace },
            ConnectStep::Retry { workspace } => ConnectStepModel::Retry { workspace },
            ConnectStep::RemoveWindow(window) => ConnectStepModel::RemoveWindow(window),
            ConnectStep::Done(window) => ConnectStepModel::Done(window),
        }
    }
}

/// A remote project that is being connected to.
#[derive(Debug, PartialEq, Eq)]
pub struct RemoteProjectConnect {
    pub connection_options: RemoteConnectionOptions,
    pub paths: Vec<RemotePath>,
    pub open_options: OpenOptions,
    /// The window that was prepared for the project.
    pub window: u64,
    /// The workspace in that window, which stands in for that of the project.
    pub initial_workspace: u64,
    /// Whether to activate the window that the project ends up in.
    pub activate_window: bool,
    pub step: ConnectStep,
}

/// What a [`RemoteProjectConnect`] is.
pub struct ConnectModel {
    pub connection_options: RemoteOptionsModel,
    pub paths: Seq<PathModel>,
    pub open_options: OpenOptions,
    pub window: u64,
    pub initial_workspace: u64,
    pub activate_window: bool,
    pub step: ConnectStepModel,
}

impl DeepView for RemoteProjectConnect {
    type V = ConnectModel;

    open spec fn deep_view(&self) -> ConnectModel {
        ConnectModel {
            connection_options: self.connection_options.deep_view(),
            paths: self.paths.deep_view(),
            open_options: self.open_options,
            window: self.window,
            initial_workspace: self.initial_workspace,
            activate_window: self.activate_window,
            step: self.step.deep_view(),
        }
    }
}

/// The index of the answer to the prompt that asks for another attempt.
pub const RETRY: usize = 0;

/// The answers to the prompt.
pub fn prompt_answers() -> (answers: [&'static str; 2])
    ensures
        answers@[RETRY as int]@ == "Retry"@,
        answers@[1]@ == "Cancel"@,
{
    ["Retry", "Cancel"]
}

pub open spec fn failed(error: Seq<char>, opening_failed: bool) -> ConnectStepModel {
    ConnectStepModel::FinishModal(AttemptOutcomeModel::Failed { error, opening_failed })
}

/// Going on with the resolution of the paths, and then locking the project.
pub open spec fn resolving(resolution: ResolutionModel) -> ConnectStepModel {
    match resolution {
        ResolutionModel::Done { paths, positions } => ConnectStepModel::Lock { paths, positions },
        _ => ConnectStepModel::Resolve(resolution),
    }
}

/// Going on with the search for an open workspace; if there is none, connecting.
pub open spec fn checking_first(check: ExistingStepModel) -> ConnectStepModel {
    match check {
        ExistingStepModel::Done(OutcomeModel::Opened(window)) => ConnectStepModel::FinishModal(
            AttemptOutcomeModel::Opened(window),
        ),
        ExistingStepModel::Done(OutcomeModel::Nothing) => ConnectStepModel::Connect,
        ExistingStepModel::Done(OutcomeModel::Failed(error)) => failed(error, false),
        _ => ConnectStepModel::CheckFirst(check),
    }
}

/// Going on with the search for an open workspace under the lock; if there is none, opening the
/// project.
pub open spec fn checking_again(
    check: ExistingStepModel,
    paths: Seq<PathModel>,
    positions: Seq<PositionModel>,
) -> ConnectStepModel {
    match check {
        ExistingStepModel::Done(OutcomeModel::Opened(window)) => ConnectStepModel::FinishModal(
            AttemptOutcomeModel::Opened(window),
        ),
        ExistingStepModel::Done(OutcomeModel::Nothing) => ConnectStepModel::OpenProject {
            paths,
            positions,
        },
        ExistingStepModel::Done(OutcomeModel::Failed(error)) => failed(error, false),
        _ => ConnectStepModel::CheckAgain { check, paths, positions },
    }
}

impl ConnectModel {
    pub open spec fn wf(self) -> bool {
        match self.step {
            ConnectStepModel::CheckFirst(check) => check.wf() && check !is Done,
            ConnectStepModel::CheckAgain { check, .. } => check.wf() && check !is Done,
            ConnectStepModel::Resolve(resolution) => resolution.wf() && resolution !is Done,
            _ => true,
        }
    }

    /// The window was opened for the project.
    pub open spec fn created_new_window(self) -> bool {
        self.open_options.requesting_window is None
    }

    /// The search for a workspace that is open on `paths`.
    pub open spec fn searching(
        self,
        paths: Seq<PathModel>,
        known: Option<Seq<PositionModel>>,
    ) -> ExistingStepModel {
        unsearched(
            self.connection_options,
            paths,
            known,
            self.open_options,
            self.activate_window,
        )
    }

    /// Giving up on the project: a window that was opened for it is closed.
    pub open spec fn giving_up(self) -> ConnectStepModel {
        if self.created_new_window() {
            ConnectStepModel::RemoveWindow(self.window)
        } else {
            ConnectStepModel::Done(self.window)
        }
    }

    /// The attempt can be cancelled: it has not begun, or it is waiting for something.
    pub open spec fn cancellable(self) -> bool {
        match self.step {
            ConnectStepModel::Activate => true,
            ConnectStepModel::CheckFirst(check) => check.takes_time(),
            ConnectStepModel::Connect => true,
            ConnectStepModel::Resolve(resolution) => resolution is Probe,
            ConnectStepModel::Lock { .. } => true,
            ConnectStepModel::CheckAgain { check, .. } => check.takes_time(),
            ConnectStepModel::OpenProject { .. } => true,
            _ => false,
        }
    }

    /// The lock of the project is held.
    pub open spec fn holds_lock(self) -> bool {
        match self.step {
            ConnectStepModel::CheckAgain { .. } => true,
            ConnectStepModel::OpenProject { .. } => true,
            ConnectStepModel::Navigate(_) => true,
            _ => false,
        }
    }

    /// The step after `event`. An event that does not answer the step changes nothing.
    pub open spec fn next_step(self, event: EventModel) -> ConnectStepModel {
        if event is Cancelled {
            if self.cancellable() {
                ConnectStepModel::FinishModal(AttemptOutcomeModel::NotOpened)
            } else {
                self.step
            }
        } else {
            match (self.step, event) {
                (ConnectStepModel::Activate, EventModel::Performed) => checking_first(
                    self.searching(self.paths, None),
                ),
                (ConnectStepModel::Activate, EventModel::Failed(error)) => failed(error, false),
                (ConnectStepModel::CheckFirst(check), _) => checking_first(check.next(event)),
                (ConnectStepModel::Connect, EventModel::Performed) => resolving(
                    settle(self.paths, Seq::empty()),
                ),
                (ConnectStepModel::Connect, EventModel::Failed(error)) => failed(error, false),
                (ConnectStepModel::Resolve(resolution), _) => resolving(resolution.next(event)),
                (ConnectStepModel::Lock { paths, positions }, EventModel::Performed) =>
                    checking_again(
                    self.searching(paths, Some(positions)),
                    paths,
                    positions,
                ),
                (ConnectStepModel::CheckAgain { check, paths, positions }, _) => checking_again(
                    check.next(event),
                    paths,
                    positions,
                ),
                (ConnectStepModel::OpenProject { .. }, EventModel::Failed(error)) => failed(
                    error,
                    true,
                ),
                (ConnectStepModel::OpenProject { .. }, EventModel::ProjectOpened(None)) =>
                    ConnectStepModel::FinishModal(AttemptOutcomeModel::NotOpened),
                (
                    ConnectStepModel::OpenProject { positions, .. },
                    EventModel::ProjectOpened(Some(items)),
                ) => ConnectStepModel::Navigate(targets(items, positions)),
                (ConnectStepModel::Navigate(_), EventModel::Performed) =>
                    ConnectStepModel::FinishModal(AttemptOutcomeModel::Opened(self.window)),
                (ConnectStepModel::FinishModal(outcome), EventModel::Performed) => match outcome {
                    AttemptOutcomeModel::Opened(opened) => {
                        if self.created_new_window() && opened != self.window {
                            ConnectStepModel::RemoveWindow(opened)
                        } else {
                            ConnectStepModel::Done(opened)
                        }
                    },
                    AttemptOutcomeModel::NotOpened => self.giving_up(),
                    AttemptOutcomeModel::Failed { error, opening_failed } =>
                        ConnectStepModel::Prompt {
                        message: self.connection_options.failure(),
                        error,
                        opening_failed,
                    },
                },
                (ConnectStepModel::Prompt { .. }, EventModel::Failed(_)) => ConnectStepModel::Done(
                    self.window,
                ),
                (ConnectStepModel::Prompt { opening_failed, .. }, EventModel::Answered(answer)) => {
                    if answer == Some(RETRY) {
                        ConnectStepModel::Retry { workspace: self.initial_workspace }
                    } else if opening_failed {
                        ConnectStepModel::TrackTrust { workspace: self.initial_workspace }
                    } else {
                        self.giving_up()
                    }
                },
                (ConnectStepModel::TrackTrust { .. }, EventModel::Performed) => self.giving_up(),
                (ConnectStepModel::Retry { .. }, EventModel::AttemptPrepared(true)) =>
                    ConnectStepModel::Activate,
                (ConnectStepModel::Retry { .. }, EventModel::AttemptPrepared(false)) =>
                    self.giving_up(),
                (ConnectStepModel::RemoveWindow(window), EventModel::Performed) =>
                    ConnectStepModel::Done(window),
                _ => self.step,
            }
        }
    }

    /// The state after `event`.
    pub open spec fn next(self, event: EventModel) -> ConnectModel {
        ConnectModel { step: self.next_step(event), ..self }
    }

    /// The state after some events.
    pub open spec fn run(self, events: Seq<EventModel>) -> ConnectModel
        decreases events.len(),
    {
        if events.len() == 0 {
            self
        } else {
            self.run(events.drop_last()).next(events.last())
        }
    }
}

impl PreparedModel {
    /// The project, about to connect.
    pub open spec fn connecting(self, activate_window: bool) -> ConnectModel {
        ConnectModel {
            connection_options: self.connection_options,
            paths: self.paths,
            open_options: self.open_options,
            window: self.window,
            initial_workspace: self.initial_workspace,
            activate_window,
            step: ConnectStepModel::Activate,
        }
    }
}

impl PreparedRemoteProject {
    /// Starts to connect to the remote machine and to open the project.
    pub fn connect(self, activate_window: bool) -> (connect: RemoteProjectConnect)
        ensures
            connect.deep_view() == self.deep_view().connecting(activate_window),
            connect.deep_view().wf(),
    {
        RemoteProjectConnect {
            connection_options: self.connection_options,
            paths: self.paths,
            open_options: self.open_options,
            window: self.window,
            initial_workspace: self.initial_workspace,
            activate_window,
            step: ConnectStep::Activate,
        }
    }
}

fn failed_step(error: String, opening_failed: bool) -> (step: ConnectStep)
    ensures
        step.deep_view() == failed(error@, opening_failed),
{
    ConnectStep::FinishModal(AttemptOutcome::Failed { error, opening_failed })
}

fn resolving_step(resolution: PathResolution) -> (step: ConnectStep)
    ensures
        step.deep_view() == resolving(resolution.deep_view()),
{
    match resolution {
        PathResolution::Done { paths, positions } => ConnectStep::Lock { paths, positions },
        resolution => ConnectStep::Resolve(resolution),
    }
}

fn checking_first_step(check: ExistingStep) -> (step: ConnectStep)
    ensures
        step.deep_view() == checking_first(check.deep_view()),
{
    match check {
        ExistingStep::Done(ExistingOutcome::Opened(window)) => ConnectStep::FinishModal(
            AttemptOutcome::Opened(window),
        ),
        ExistingStep::Done(ExistingOutcome::Nothing) => ConnectStep::Connect,
        ExistingStep::Done(ExistingOutcome::Failed(error)) => failed_step(error, false),
        check => ConnectStep::CheckFirst(check),
    }
}

fn checking_again_step(
    check: ExistingStep,
    paths: Vec<RemotePath>,
    positions: Vec<PathWithPosition>,
) -> (step: ConnectStep)
    ensures
        step.deep_view() == checking_again(
            check.deep_view(),
            paths.deep_view(),
            positions.deep_view(),
        ),
{
    match check {
        ExistingStep::Done(ExistingOutcome::Opened(window)) => ConnectStep::FinishModal(
            AttemptOutcome::Opened(window),
        ),
        ExistingStep::Done(ExistingOutcome::Nothing) => ConnectStep::OpenProject {
            paths,
            positions,
        },
        ExistingStep::Done(ExistingOutcome::Failed(error)) => failed_step(error, false),
        check => ConnectStep::CheckAgain { check, paths, positions },
    }
}

fn giving_up_step(window: u64, created_new_window: bool) -> (step: ConnectStep)
    ensures
        step.deep_view() == (if created_new_window {
            ConnectStepModel::RemoveWindow(window)
        } else {
            ConnectStepModel::Done(window)
        }),
{
    if created_new_window {
        ConnectStep::RemoveWindow(window)
    } else {
        ConnectStep::Done(window)
    }
}

impl RemoteProjectConnect {
    /// Whether the window was opened for the project.
    pub fn created_new_window(&self) -> (created: bool)
        ensures
            created == self.deep_view().created_new_window(),
    {
        self.open_options.requesting_window.is_none()
    }

    /// Whether the attempt can be cancelled: it has not begun, or it is waiting for something.
    pub fn cancellable(&self) -> (cancellable: bool)
        ensures
            cancellable == self.deep_view().cancellable(),
    {
        match &self.step {
            ConnectStep::Activate => true,
            ConnectStep::CheckFirst(check) => check.takes_time(),
            ConnectStep::Connect => true,
            ConnectStep::Resolve(PathResolution::Probe { .. }) => true,
            ConnectStep::Lock { .. } => true,
            ConnectStep::CheckAgain { check, .. } => check.takes_time(),
            ConnectStep::OpenProject { .. } => true,
            _ => false,
        }
    }

    /// Whether the lock of the project is held.
    pub fn holds_lock(&self) -> (holds_lock: bool)
        ensures
            holds_lock == self.deep_view().holds_lock(),
    {
        match &self.step {
            ConnectStep::CheckAgain { .. } => true,
            ConnectStep::OpenProject { .. } => true,
            ConnectStep::Navigate(_) => true,
            _ => false,
        }
    }

    /// Takes in how the step went.
    pub fn next(self, event: Event) -> (connect: Self)
        requires
            self.deep_view().wf(),
        ensures
            connect.deep_view() == self.deep_view().next(event.deep_view()),
            connect.deep_view().wf(),
    {
        let cancellable = self.cancellable();
        let created_new_window = self.created_new_window();
        let RemoteProjectConnect {
            connection_options,
            paths: asked,
            open_options,
            window,
            initial_workspace,
            activate_window,
            step,
        } = self;
        let step = match (step, event) {
            (step, Event::Cancelled) => {
                if cancellable {
                    ConnectStep::FinishModal(AttemptOutcome::NotOpened)
                } else {
                    step
                }
            },
            (ConnectStep::Activate, Event::Performed) => checking_first_step(
                open_existing_remote_project(
                    &connection_options,
                    clone_paths(&asked),
                    None,
                    open_options,
                    activate_window,
                ),
            ),
            (ConnectStep::Activate, Event::Failed(error)) => failed_step(error, false),
            (ConnectStep::CheckFirst(check), event) => checking_first_step(check.next(event)),
            (ConnectStep::Connect, Event::Performed) => resolving_step(
                determine_paths_with_positions(clone_paths(&asked)),
            ),
            (ConnectStep::Connect, Event::Failed(error)) => failed_step(error, false),
            (ConnectStep::Resolve(resolution), event) => resolving_step(resolution.next(event)),
            (ConnectStep::Lock { paths, positions }, Event::Performed) => {
                let check = open_existing_remote_project(
                    &connection_options,
                    clone_paths(&paths),
                    Some(clone_positions(&positions)),
                    open_options,
                    activate_window,
                );
                checking_again_step(check, paths, positions)
            },
            (ConnectStep::CheckAgain { check, paths, positions }, event) => checking_again_step(
                check.next(event),
                paths,
                positions,
            ),
            (ConnectStep::OpenProject { .. }, Event::Failed(error)) => failed_step(error, true),
            (ConnectStep::OpenProject { .. }, Event::ProjectOpened(None)) =>
                ConnectStep::FinishModal(AttemptOutcome::NotOpened),
            (ConnectStep::OpenProject { positions, .. }, Event::ProjectOpened(Some(items))) =>
                ConnectStep::Navigate(navigate_to_positions(&items, &positions)),
            (ConnectStep::Navigate(_), Event::Performed) => ConnectStep::FinishModal(
                AttemptOutcome::Opened(window),
            ),
            (ConnectStep::FinishModal(outcome), Event::Performed) => match outcome {
                AttemptOutcome::Opened(opened) => {
                    if created_new_window && opened != window {
                        ConnectStep::RemoveWindow(opened)
                    } else {
                        ConnectStep::Done(opened)
                    }
                },
                AttemptOutcome::NotOpened => giving_up_step(window, created_new_window),
                AttemptOutcome::Failed { error, opening_failed } => ConnectStep::Prompt {
                    message: connection_options.failure_message(),
                    error,
                    opening_failed,
                },
            },
            (ConnectStep::Prompt { .. }, Event::Failed(_)) => ConnectStep::Done(window),
            (ConnectStep::Prompt { opening_failed, .. }, Event::Answered(answer)) => {
                let retry = match answer {
                    Some(answer) => answer == RETRY,
                    None => false,
                };
                if retry {
                    ConnectStep::Retry { workspace: initial_workspace }
                } else if opening_failed {
                    ConnectStep::TrackTrust { workspace: initial_workspace }
                } else {
                    giving_up_step(window, created_new_window)
                }
            },
            (ConnectStep::TrackTrust { .. }, Event::Performed) => giving_up_step(
                window,
                created_new_window,
            ),
            (ConnectStep::Retry { .. }, Event::AttemptPrepared(true)) => ConnectStep::Activate,
            (ConnectStep::Retry { .. }, Event::AttemptPrepared(false)) => giving_up_step(
                window,
                created_new_window,
            ),
            (ConnectStep::RemoveWindow(returned), Event::Performed) => ConnectStep::Done(returned),
            (step, _) => step,
        };
        RemoteProjectConnect {
            connection_options,
            paths: asked,
            open_options,
            window,
            initial_workspace,
            activate_window,
            step,
        }
    }
}

} // verus!
