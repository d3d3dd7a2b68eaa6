//! Finding or opening the window in which a remote project will be opened.

use crate::connection::{RemoteConnectionOptions, RemoteOptionsModel};
use crate::events::{Event, EventModel};
use crate::paths::{PathModel, RemotePath};
use crate::workspace::OpenOptions;
use vstd::prelude::*;

verus! {

/// Why a project could not be prepared.
#[derive(Debug, PartialEq, Eq)]
pub enum PrepareError {
    /// The position of the window could not be looked up, with this error.
    Position(String),
    /// A window could not be opened or reached, with this error.
    Window(String),
    /// The window does not show the modal for the connection.
    Modal,
}

/// What a [`PrepareError`] is.
pub enum PrepareErrorModel {
    Position(Seq<char>),
    Window(Seq<char>),
    Modal,
}

impl DeepView for PrepareError {
    type V = PrepareErrorModel;

    open spec fn deep_view(&self) -> PrepareErrorModel {
        match *self {
            PrepareError::Position(error) => PrepareErrorModel::Position(error@),
            PrepareError::Window(error) => PrepareErrorModel::Window(error@),
            PrepareError::Modal => PrepareErrorModel::Modal,
        }
    }
}

impl PrepareErrorModel {
    /// What the error says.
    pub open spec fn message(self) -> Seq<char> {
        match self {
            PrepareErrorModel::Position(_) => "fetching remote workspace position from db"@,
            PrepareErrorModel::Window(error) => error,
            PrepareErrorModel::Modal => "remote connection modal could not be opened"@,
        }
    }
}

impl PrepareError {
    /// What the error says.
    pub fn message(&self) -> (message: String)
        ensures
            message@ == self.deep_view().message(),
    {
        match self {
            PrepareError::Position(_) => "fetching remote workspace position from db".to_owned(),
            PrepareError::Window(error) => error.clone(),
            PrepareError::Modal => "remote connection modal could not be opened".to_owned(),
        }
    }
}

/// A remote project that has a window, and is ready to connect.
#[derive(Debug, PartialEq, Eq)]
pub struct PreparedRemoteProject {
    pub connection_options: RemoteConnectionOptions,
    pub paths: Vec<RemotePath>,
    pub open_options: OpenOptions,
    pub window: u64,
    /// The workspace in the window, which stands in for that of the project.
    pub initial_workspace: u64,
}

/// What a [`PreparedRemoteProject`] is.
pub struct PreparedModel {
    pub connection_options: RemoteOptionsModel,
    pub paths: Seq<PathModel>,
    pub open_options: OpenOptions,
    pub window: u64,
    pub initial_workspace: u64,
}

impl DeepView for PreparedRemoteProject {
    type V = PreparedModel;

    open spec fn deep_view(&self) -> PreparedModel {
        PreparedModel {
            connection_options: self.connection_options.deep_view(),
            paths: self.paths.deep_view(),
            open_options: self.open_options,
            window: self.window,
            initial_workspace: self.initial_workspace,
        }
    }
}

impl PreparedRemoteProject {
    /// The window of the project.
    pub fn window(&self) -> (window: u64)
        ensures
            window == self.deep_view().window,
    {
        self.window
    }
}

/// What is to be done next.
#[derive(Debug, PartialEq, Eq)]
pub enum PreparationStep {
    /// Get hold of the workspace in the window that was asked for.
    ReadWorkspace { window: u64 },
    /// Look up where the window of the project was when it was last open.
    FetchPosition,
    /// Open a window at `position`, with a local project that stands in for the remote one. Mark
    /// its workspace as a placeholder if `placeholder` says so, and have the project ask for trust
    /// in its worktrees only if `init_worktree_trust` does.
    OpenWindow { position: u64, placeholder: bool, init_worktree_trust: bool },
    /// Activate the new window, and get hold of the workspace in it.
    ActivateWindow { window: u64 },
    /// Show the modal for the connection in the workspace of the window.
    ShowModal { window: u64, workspace: u64 },
    /// The window is ready.
    Ready { window: u64, workspace: u64 },
    /// The project could not be prepared.
    Failed(PrepareError),
}

/// What a [`PreparationStep`] is.
pub enum PreparationStepModel {
    ReadWorkspace { window: u64 },
    FetchPosition,
    OpenWindow { position: u64, placeholder: bool, init_worktree_trust: bool },
    ActivateWindow { window: u64 },
    ShowModal { window: u64, workspace: u64 },
    Ready { window: u64, workspace: u64 },
    Failed(PrepareErrorModel),
}

impl DeepView for PreparationStep {
    type V = PreparationStepModel;

    open spec fn deep_view(&self) -> PreparationStepModel {
        match *self {
            PreparationStep::ReadWorkspace { window } => PreparationStepModel::ReadWorkspace {
                window,
            },
            PreparationStep::FetchPosition => PreparationStepModel::FetchPosition,
            PreparationStep::OpenWindow { position, placeholder, init_worktree_trust } =>
                PreparationStepModel::OpenWindow { position, placeholder, init_worktree_trust },
            PreparationStep::ActivateWindow { window } => PreparationStepModel::ActivateWindow {
                window,
            },
            PreparationStep::ShowModal { window, workspace } => PreparationStepModel::ShowModal {
                window,
                workspace,
            },
            PreparationStep::Ready { window, workspace } => PreparationStepModel::Ready {
                window,
                workspace,
            },
            PreparationStep::Failed(error) => PreparationStepModel::Failed(error.deep_view()),
        }
    }
}

impl PreparationStepModel {
    /// The step after `event`. An event that does not answer the step changes nothing.
    pub open spec fn next(self, event: EventModel) -> PreparationStepModel {
        match (self, event) {
            (
                PreparationStepModel::ReadWorkspace { window },
                EventModel::WorkspaceRead(workspace),
            ) => PreparationStepModel::ShowModal { window, workspace },
            (PreparationStepModel::ReadWorkspace { .. }, EventModel::Failed(error)) =>
                PreparationStepModel::Failed(PrepareErrorModel::Window(error)),
            (PreparationStepModel::FetchPosition, EventModel::PositionFetched(position)) =>
                PreparationStepModel::OpenWindow {
                position,
                placeholder: true,
                init_worktree_trust: false,
            },
            (PreparationStepModel::FetchPosition, EventModel::Failed(error)) =>
                PreparationStepModel::Failed(PrepareErrorModel::Position(error)),
            (PreparationStepModel::OpenWindow { .. }, EventModel::WindowOpened(window)) =>
                PreparationStepModel::ActivateWindow { window },
            (PreparationStepModel::OpenWindow { .. }, EventModel::Failed(error)) =>
                PreparationStepModel::Failed(PrepareErrorModel::Window(error)),
            (
                PreparationStepModel::ActivateWindow { window },
                EventModel::WorkspaceRead(workspace),
            ) => PreparationStepModel::ShowModal { window, workspace },
            (PreparationStepModel::ActivateWindow { .. }, EventModel::Failed(error)) =>
                PreparationStepModel::Failed(PrepareErrorModel::Window(error)),
            (
                PreparationStepModel::ShowModal { window, workspace },
                EventModel::AttemptPrepared(true),
            ) => PreparationStepModel::Ready { window, workspace },
            (PreparationStepModel::ShowModal { .. }, EventModel::AttemptPrepared(false)) =>
                PreparationStepModel::Failed(PrepareErrorModel::Modal),
            _ => self,
        }
    }
}

impl PreparationStep {
    fn next(self, event: Event) -> (step: Self)
        ensures
            step.deep_view() == self.deep_view().next(event.deep_view()),
    {
        match (self, event) {
            (PreparationStep::ReadWorkspace { window }, Event::WorkspaceRead(workspace)) =>
                PreparationStep::ShowModal { window, workspace },
            (PreparationStep::ReadWorkspace { .. }, Event::Failed(error)) =>
                PreparationStep::Failed(PrepareError::Window(error)),
            (PreparationStep::FetchPosition, Event::PositionFetched(position)) =>
                PreparationStep::OpenWindow {
                position,
                placeholder: true,
                init_worktree_trust: false,
            },
            (PreparationStep::FetchPosition, Event::Failed(error)) => PreparationStep::Failed(
                PrepareError::Position(error),
            ),
            (PreparationStep::OpenWindow { .. }, Event::WindowOpened(window)) =>
                PreparationStep::ActivateWindow { window },
            (PreparationStep::OpenWindow { .. }, Event::Failed(error)) => PreparationStep::Failed(
                PrepareError::Window(error),
            ),
            (PreparationStep::ActivateWindow { window }, Event::WorkspaceRead(workspace)) =>
                PreparationStep::ShowModal { window, workspace },
            (PreparationStep::ActivateWindow { .. }, Event::Failed(error)) =>
                PreparationStep::Failed(PrepareError::Window(error)),
            (
                PreparationStep::ShowModal { window, workspace },
                Event::AttemptPrepared(true),
            ) => PreparationStep::Ready { window, workspace },
            (PreparationStep::ShowModal { .. }, Event::AttemptPrepared(false)) =>
                PreparationStep::Failed(PrepareError::Modal),
            (step, _) => step,
        }
    }
}

/// A remote project that is being prepared.
#[derive(Debug, PartialEq, Eq)]
pub struct RemoteProjectPreparation {
    pub connection_options: RemoteConnectionOptions,
    pub paths: Vec<RemotePath>,
    pub open_options: OpenOptions,
    pub step: PreparationStep,
}

/// What a [`RemoteProjectPreparation`] is.
pub struct PreparationModel {
    pub connection_options: RemoteOptionsModel,
    pub paths: Seq<PathModel>,
    pub open_options: OpenOptions,
    pub step: PreparationStepModel,
}

impl DeepView for RemoteProjectPreparation {
    type V = PreparationModel;

    open spec fn deep_view(&self) -> PreparationModel {
        PreparationModel {
            connection_options: self.connection_options.deep_view(),
            paths: self.paths.deep_view(),
            open_options: self.open_options,
            step: self.step.deep_view(),
        }
    }
}

/// A project that is about to be prepared.
pub open spec fn unprepared(
    connection_options: RemoteOptionsModel,
    paths: Seq<PathModel>,
    open_options: OpenOptions,
) -> PreparationModel {
    PreparationModel {
        connection_options,
        paths,
        open_options,
        step: match open_options.requesting_window {
            Some(window) => PreparationStepModel::ReadWorkspace { window },
            None => PreparationStepModel::FetchPosition,
        },
    }
}

impl PreparationModel {
    /// The window is opened for the project.
    pub open spec fn created_new_window(self) -> bool {
        self.open_options.requesting_window is None
    }

    /// The preparation after `event`.
    pub open spec fn next(self, event: EventModel) -> PreparationModel {
        PreparationModel { step: self.step.next(event), ..self }
    }

    /// The preparation after some events.
    pub open spec fn run(self, events: Seq<EventModel>) -> PreparationModel
        decreases events.len(),
    {
        if events.len() == 0 {
            self
        } else {
            self.run(events.drop_last()).next(events.last())
        }
    }

    /// What the preparation has come to, once it has come to an end.
    pub open spec fn outcome(self) -> Option<Result<PreparedModel, PrepareErrorModel>> {
        match self.step {
            PreparationStepModel::Ready { window, workspace } => Some(
                Ok(
                    PreparedModel {
                        connection_options: self.connection_options,
                        paths: self.paths,
                        open_options: self.open_options,
                        window,
                        initial_workspace: workspace,
                    },
                ),
            ),
            PreparationStepModel::Failed(error) => Some(Err(error)),
            _ => None,
        }
    }
}

/// What a preparation has come to.
#[derive(Debug, PartialEq, Eq)]
pub enum PreparationOutcome {
    /// It is still going on.
    Pending(RemoteProjectPreparation),
    Ready(PreparedRemoteProject),
    Failed(PrepareError),
}

impl RemoteProjectPreparation {
    /// Whether the window is opened for the project.
    pub fn created_new_window(&self) -> (created: bool)
        ensures
            created == self.deep_view().created_new_window(),
    {
        self.open_options.requesting_window.is_none()
    }

    /// Takes in how the step went.
    pub fn next(self, event: Event) -> (preparation: Self)
        ensures
            preparation.deep_view() == self.deep_view().next(event.deep_view()),
    {
        RemoteProjectPreparation { step: self.step.next(event), ..self }
    }

    /// What the preparation has come to.
    pub fn outcome(self) -> (outcome: PreparationOutcome)
        ensures
            match outcome {
                PreparationOutcome::Pending(preparation) => preparation == self
                    && self.deep_view().outcome() is None,
                PreparationOutcome::Ready(project) => self.deep_view().outcome() == Some(
                    Ok::<PreparedModel, PrepareErrorModel>(project.deep_view()),
                ),
                PreparationOutcome::Failed(error) => self.deep_view().outcome() == Some(
                    Err::<PreparedModel, PrepareErrorModel>(error.deep_view()),
                ),
            },
    {
        let RemoteProjectPreparation { connection_options, paths, open_options, step } = self;
        match step {
            PreparationStep::Ready { window, workspace } => PreparationOutcome::Ready(
                PreparedRemoteProject {
                    connection_options,
                    paths,
                    open_options,
                    window,
                    initial_workspace: workspace,
                },
            ),
            PreparationStep::Failed(error) => PreparationOutcome::Failed(error),
            step => PreparationOutcome::Pending(
                RemoteProjectPreparation { connection_options, paths, open_options, step },
            ),
        }
    }
}

/// Starts to prepare a project: in the window that was asked for, or else in a new one.
pub fn prepare_remote_project_inner(
    connection_options: RemoteConnectionOptions,
    paths: Vec<RemotePath>,
    open_options: OpenOptions,
) -> (preparation: RemoteProjectPreparation)
    ensures
        preparation.deep_view() == unprepared(
            connection_options.deep_view(),
            paths.deep_view(),
            open_options,
        ),
{
    let step = match open_options.requesting_window {
        Some(window) => PreparationStep::ReadWorkspace { window },
        None => PreparationStep::FetchPosition,
    };
    RemoteProjectPreparation { connection_options, paths, open_options, step }
}

/// Starts to prepare a project in a new window.
pub fn prepare_remote_project(
    connection_options: RemoteConnectionOptions,
    paths: Vec<RemotePath>,
) -> (preparation: RemoteProjectPreparation)
    ensures
        preparation.deep_view() == unprepared(
            connection_options.deep_view(),
            paths.deep_view(),
            OpenOptions { visible: None, requesting_window: None },
        ),
{
    prepare_remote_project_inner(connection_options, paths, OpenOptions::default())
}

/// The workspace was reported to be the one in the window, when that was asked for.
pub open spec fn is_workspace_of(
    start: PreparationModel,
    events: Seq<EventModel>,
    window: u64,
    workspace: u64,
) -> bool {
    exists|k: int|
        0 <= k < events.len() && #[trigger] events[k] == EventModel::WorkspaceRead(workspace) && (
        start.run(events.take(k)).step == (PreparationStepModel::ReadWorkspace { window })
            || start.run(events.take(k)).step == (PreparationStepModel::ActivateWindow { window }))
}

/// The window is the one that was asked for, or, if none was, one that was opened.
pub open spec fn own_window(
    open_options: OpenOptions,
    events: Seq<EventModel>,
    window: u64,
) -> bool {
    match open_options.requesting_window {
        Some(requesting) => window == requesting,
        None => events.contains(EventModel::WindowOpened(window)),
    }
}

spec fn preparation_invariant(start: PreparationModel, events: Seq<EventModel>) -> bool {
    let now = start.run(events);
    let open_options = start.open_options;
    &&& now == (PreparationModel { step: now.step, ..start })
    &&& match now.step {
        PreparationStepModel::ReadWorkspace { window } => open_options.requesting_window == Some(
            window,
        ),
        PreparationStepModel::FetchPosition => open_options.requesting_window is None,
        PreparationStepModel::OpenWindow { position, placeholder, init_worktree_trust } => {
            &&& open_options.requesting_window is None
            &&& events.contains(EventModel::PositionFetched(position))
            &&& placeholder
            &&& !init_worktree_trust
        },
        PreparationStepModel::ActivateWindow { window } => {
            &&& open_options.requesting_window is None
            &&& own_window(open_options, events, window)
        },
        PreparationStepModel::ShowModal { window, workspace } => {
            &&& own_window(open_options, events, window)
            &&& is_workspace_of(start, events, window, workspace)
        },
        PreparationStepModel::Ready { window, workspace } => {
            &&& own_window(open_options, events, window)
            &&& is_workspace_of(start, events, window, workspace)
        },
        PreparationStepModel::Failed(_) => true,
    }
}

/// A prepared project is the one that was asked for. Its window is the one that was asked for, if
/// there was one, and then no window is opened; otherwise it is a window that was opened for it.
/// Its workspace is the one that was reported for that window, and so is the one that the modal is
/// shown in.
pub proof fn law_a_prepared_project_is_in_its_window(
    connection_options: RemoteOptionsModel,
    paths: Seq<PathModel>,
    open_options: OpenOptions,
    events: Seq<EventModel>,
)
    ensures
        ({
            let start = unprepared(connection_options, paths, open_options);
            let now = start.run(events);
            &&& now.outcome() matches Some(Ok(project)) ==> {
                &&& project.connection_options == connection_options
                &&& project.paths == paths
                &&& project.open_options == open_options
                &&& own_window(open_options, events, project.window)
                &&& is_workspace_of(start, events, project.window, project.initial_workspace)
            }
            &&& now.step matches PreparationStepModel::ShowModal { window, workspace } ==> {
                &&& own_window(open_options, events, window)
                &&& is_workspace_of(start, events, window, workspace)
            }
            &&& open_options.requesting_window is Some ==> now.step !is FetchPosition
                && now.step !is OpenWindow && now.step !is ActivateWindow
        }),
{
    lemma_preparation(connection_options, paths, open_options, events);
}

/// A window that is opened for a project is opened at the position that was looked up for it. The
/// workspace in it is marked as a placeholder, and does not ask for trust in its worktrees.
pub proof fn law_a_new_window_holds_a_stand_in(
    connection_options: RemoteOptionsModel,
    paths: Seq<PathModel>,
    open_options: OpenOptions,
    events: Seq<EventModel>,
)
    ensures
        unprepared(connection_options, paths, open_options).run(
            events,
        ).step matches PreparationStepModel::OpenWindow {
            position,
            placeholder,
            init_worktree_trust,
        } ==> events.contains(EventModel::PositionFetched(position)) && placeholder
            && !init_worktree_trust,
{
    lemma_preparation(connection_options, paths, open_options, events);
}

proof fn lemma_preparation(
    connection_options: RemoteOptionsModel,
    paths: Seq<PathModel>,
    open_options: OpenOptions,
    events: Seq<EventModel>,
)
    ensures
        preparation_invariant(unprepared(connection_options, paths, open_options), events),
    decreases events.len(),
{
    if events.len() > 0 {
        let start = unprepared(connection_options, paths, open_options);
        let earlier = events.drop_last();
        let last = events.len() - 1;
        lemma_preparation(connection_options, paths, open_options, earlier);
        assert forall|event: EventModel| #[trigger] earlier.contains(event) implies events.contains(
            event,
        ) by {
            let i = choose|i: int| 0 <= i < earlier.len() && earlier[i] == event;
            assert(events[i] == event);
        }
        assert forall|window: u64, workspace: u64| #[trigger]
            is_workspace_of(start, earlier, window, workspace) implies is_workspace_of(
            start,
            events,
            window,
            workspace,
        ) by {
            let k = choose|k: int|
                0 <= k < earlier.len() && #[trigger] earlier[k] == EventModel::WorkspaceRead(
                    workspace,
                ) && (start.run(earlier.take(k)).step == (PreparationStepModel::ReadWorkspace {
                    window,
                }) || start.run(earlier.take(k)).step == (PreparationStepModel::ActivateWindow {
                    window,
                }));
            assert(events[k] == earlier[k]);
            assert(events.take(k) =~= earlier.take(k));
        }
        assert(events.take(last) =~= earlier);
        assert(events[last] == events.last());
        assert(events.contains(events.last()));
    }
}

} // verus!
