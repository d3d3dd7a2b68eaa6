//! Opening a remote project from start to finish.

use crate::connect::{ConnectModel, ConnectStep, ConnectStepModel, RemoteProjectConnect};
use crate::connection::{RemoteConnectionOptions, RemoteOptionsModel};
use crate::events::{Event, EventModel};
use crate::existing::{
    open_existing_remote_project, unsearched, ExistingOutcome, ExistingStep, ExistingStepModel,
    OutcomeModel,
};
use crate::paths::{clone_paths, PathModel, RemotePath};
use crate::prepare::{
    prepare_remote_project_inner, unprepared, PreparationModel, PreparationOutcome, PrepareError,
    PrepareErrorModel, RemoteProjectPreparation,
};
use crate::workspace::OpenOptions;
use vstd::prelude::*;

verus! {

/// Why a project could not be opened.
#[derive(Debug, PartialEq, Eq)]
pub enum OpenError {
    /// Opening the paths in an open workspace failed, with this error.
    Existing(String),
    /// The project could not be prepared.
    Prepare(PrepareError),
}

/// What an [`OpenError`] is.
pub enum OpenErrorModel {
    Existing(Seq<char>),
    Prepare(PrepareErrorModel),
}

impl DeepView for OpenError {
    type V = OpenErrorModel;

    open spec fn deep_view(&self) -> OpenErrorModel {
        match *self {
            OpenError::Existing(error) => OpenErrorModel::Existing(error@),
            OpenError::Prepare(error) => OpenErrorModel::Prepare(error.deep_view()),
        }
    }
}

impl OpenErrorModel {
    /// What the error says.
    pub open spec fn message(self) -> Seq<char> {
        match self {
            OpenErrorModel::Existing(error) => error,
            OpenErrorModel::Prepare(error) => error.message(),
        }
    }
}

impl OpenError {
    /// What the error says.
    pub fn message(&self) -> (message: String)
        ensures
            message@ == self.deep_view().message(),
    {
        match self {
            OpenError::Existing(error) => error.clone(),
            OpenError::Prepare(error) => error.message(),
        }
    }
}

/// A remote project that is being opened.
#[derive(Debug, PartialEq, Eq)]
pub enum RemoteProjectOpen {
    /// Open the project in a workspace that is already open on it.
    Existing {
        check: ExistingStep,
        connection_options: RemoteConnectionOptions,
        paths: Vec<RemotePath>,
        open_options: OpenOptions,
    },
    /// Prepare the project.
    Prepare(RemoteProjectPreparation),
    /// Connect to the remote machine.
    Connect(RemoteProjectConnect),
    /// The window to return.
    Opened(u64),
    /// The project could not be opened.
    Failed(OpenError),
}

/// What a [`RemoteProjectOpen`] is.
pub enum OpenModel {
    Existing {
        check: ExistingStepModel,
        connection_options: RemoteOptionsModel,
        paths: Seq<PathModel>,
        open_options: OpenOptions,
    },
    Prepare(PreparationModel),
    Connect(ConnectModel),
    Opened(u64),
    Failed(OpenErrorModel),
}

impl DeepView for RemoteProjectOpen {
    type V = OpenModel;

    open spec fn deep_view(&self) -> OpenModel {
        match *self {
            RemoteProjectOpen::Existing { check, connection_options, paths, open_options } =>
                OpenModel::Existing {
                check: check.deep_view(),
                connection_options: connection_options.deep_view(),
                paths: paths.deep_view(),
                open_options,
            },
            RemoteProjectOpen::Prepare(preparation) => OpenModel::Prepare(preparation.deep_view()),
            RemoteProjectOpen::Connect(connect) => OpenModel::Connect(connect.deep_view()),
            RemoteProjectOpen::Opened(window) => OpenModel::Opened(window),
            RemoteProjectOpen::Failed(error) => OpenModel::Failed(error.deep_view()),
        }
    }
}

/// A project that is about to be opened.
pub open spec fn unopened(
    connection_options: RemoteOptionsModel,
    paths: Seq<PathModel>,
    open_options: OpenOptions,
) -> OpenModel {
    OpenModel::Existing {
        check: unsearched(connection_options, paths, None, open_options, true),
        connection_options,
        paths,
        open_options,
    }
}

/// Going on with the search for an open workspace; if there is none, preparing the project.
pub open spec fn checking(
    check: ExistingStepModel,
    connection_options: RemoteOptionsModel,
    paths: Seq<PathModel>,
    open_options: OpenOptions,
) -> OpenModel {
    match check {
        ExistingStepModel::Done(OutcomeModel::Opened(window)) => OpenModel::Opened(window),
        ExistingStepModel::Done(OutcomeModel::Nothing) => OpenModel::Prepare(
            unprepared(connection_options, paths, open_options),
        ),
        ExistingStepModel::Done(OutcomeModel::Failed(error)) => OpenModel::Failed(
            OpenErrorModel::Existing(error),
        ),
        _ => OpenModel::Existing { check, connection_options, paths, open_options },
    }
}

/// Going on with the preparation, and then connecting.
pub open spec fn preparing(preparation: PreparationModel) -> OpenModel {
    match preparation.outcome() {
        None => OpenModel::Prepare(preparation),
        Some(Ok(project)) => OpenModel::Connect(project.connecting(true)),
        Some(Err(error)) => OpenModel::Failed(OpenErrorModel::Prepare(error)),
    }
}

/// Going on with the connection, until there is a window to return.
pub open spec fn connecting(connect: ConnectModel) -> OpenModel {
    match connect.step {
        ConnectStepModel::Done(window) => OpenModel::Opened(window),
        _ => OpenModel::Connect(connect),
    }
}

impl OpenModel {
    pub open spec fn wf(self) -> bool {
        match self {
            OpenModel::Existing { check, .. } => check.wf() && check !is Done,
            OpenModel::Connect(connect) => connect.wf(),
            _ => true,
        }
    }

    /// The state after `event`.
    pub open spec fn next(self, event: EventModel) -> OpenModel {
        match self {
            OpenModel::Existing { check, connection_options, paths, open_options } => checking(
                check.next(event),
                connection_options,
                paths,
                open_options,
            ),
            OpenModel::Prepare(preparation) => preparing(preparation.next(event)),
            OpenModel::Connect(connect) => connecting(connect.next(event)),
            _ => self,
        }
    }

    /// The state after some events.
    pub open spec fn run(self, events: Seq<EventModel>) -> OpenModel
        decreases events.len(),
    {
        if events.len() == 0 {
            self
        } else {
            self.run(events.drop_last()).next(events.last())
        }
    }
}

/// Starts to open a remote project: in a workspace that is already open on it, or else over a new
/// connection.
pub fn open_remote_project(
    connection_options: RemoteConnectionOptions,
    paths: Vec<RemotePath>,
    open_options: OpenOptions,
) -> (open: RemoteProjectOpen)
    ensures
        open.deep_view() == unopened(
            connection_options.deep_view(),
            paths.deep_view(),
            open_options,
        ),
        open.deep_view().wf(),
{
    RemoteProjectOpen::Existing {
        check: open_existing_remote_project(
            &connection_options,
            clone_paths(&paths),
            None,
            open_options,
            true,
        ),
        connection_options,
        paths,
        open_options,
    }
}

impl RemoteProjectOpen {
    /// Takes in how the step went.
    pub fn next(self, event: Event) -> (open: Self)
        requires
            self.deep_view().wf(),
        ensures
            open.deep_view() == self.deep_view().next(event.deep_view()),
            open.deep_view().wf(),
    {
        match self {
            RemoteProjectOpen::Existing { check, connection_options, paths, open_options } => {
                match check.next(event) {
                    ExistingStep::Done(ExistingOutcome::Opened(window)) =>
                        RemoteProjectOpen::Opened(window),
                    ExistingStep::Done(ExistingOutcome::Nothing) => RemoteProjectOpen::Prepare(
                        prepare_remote_project_inner(connection_options, paths, open_options),
                    ),
                    ExistingStep::Done(ExistingOutcome::Failed(error)) =>
                        RemoteProjectOpen::Failed(OpenError::Existing(error)),
                    check => RemoteProjectOpen::Existing {
                        check,
                        connection_options,
                        paths,
                        open_options,
                    },
                }
            },
            RemoteProjectOpen::Prepare(preparation) => match preparation.next(event).outcome() {
                PreparationOutcome::Pending(preparation) => RemoteProjectOpen::Prepare(preparation),
                PreparationOutcome::Ready(project) => RemoteProjectOpen::Connect(
                    project.connect(true),
                ),
                PreparationOutcome::Failed(error) => RemoteProjectOpen::Failed(
                    OpenError::Prepare(error),
                ),
            },
            RemoteProjectOpen::Connect(connect) => {
                let connect = connect.next(event);
                match connect.step {
                    ConnectStep::Done(window) => RemoteProjectOpen::Opened(window),
                    _ => RemoteProjectOpen::Connect(connect),
                }
            },
            open => open,
        }
    }
}

} // verus!
