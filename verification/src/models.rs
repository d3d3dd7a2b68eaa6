//! Models say just what they are models of: nothing is lost or made up in them.

use crate::attempt::RemoteConnectionAttempt;
use crate::connect::{
    AttemptOutcome, AttemptOutcomeModel, ConnectStep, ConnectStepModel, RemoteProjectConnect,
};
use crate::existing::{ExistingOutcome, ExistingStep, ExistingStepModel, OutcomeModel};
use crate::open::{OpenError, OpenErrorModel, OpenModel, RemoteProjectOpen};
use crate::prepare::{
    PreparationStep, PreparationStepModel, PrepareError, PrepareErrorModel, PreparedRemoteProject,
    RemoteProjectPreparation,
};
use crate::probe::{PathProbe, ProbeModel};
use crate::resolve::{PathResolution, ResolutionModel};
use vstd::prelude::*;

verus! {

/// The model of a resolution holds its paths and positions.
pub proof fn law_models_of_resolutions_say_the_same(resolution: PathResolution)
    ensures
        match (resolution, resolution.deep_view()) {
            (
                PathResolution::Parse { paths, positions },
                ResolutionModel::Parse { paths: model_paths, positions: model_positions },
            ) => model_paths == paths.deep_view() && model_positions == positions.deep_view(),
            (
                PathResolution::Probe { paths, positions, parsed },
                ResolutionModel::Probe {
                    paths: model_paths,
                    positions: model_positions,
                    parsed: model_parsed,
                },
            ) => model_paths == paths.deep_view() && model_positions == positions.deep_view()
                && model_parsed == parsed.deep_view(),
            (
                PathResolution::Done { paths, positions },
                ResolutionModel::Done { paths: model_paths, positions: model_positions },
            ) => model_paths == paths.deep_view() && model_positions == positions.deep_view(),
            _ => false,
        },
{
}

/// The model of a question holds the command that it is put to.
pub proof fn law_models_of_probes_say_the_same(probe: PathProbe)
    ensures
        match (probe, probe.deep_view()) {
            (
                PathProbe::Build { program, args, env, interactive },
                ProbeModel::Build {
                    program: model_program,
                    args: model_args,
                    env: model_env,
                    interactive: model_interactive,
                },
            ) => model_program == program@ && model_args == args.deep_view() && model_env
                == env.deep_view() && model_interactive == interactive,
            (PathProbe::Spawn, ProbeModel::Spawn) => true,
            (PathProbe::Wait, ProbeModel::Wait) => true,
            (PathProbe::Done(found), ProbeModel::Done(model)) => model == found,
            _ => false,
        },
{
}

/// The models of a search and of what it came to hold all that it is about.
pub proof fn law_models_of_searches_say_the_same(step: ExistingStep, outcome: ExistingOutcome)
    ensures
        match (step, step.deep_view()) {
            (
                ExistingStep::Find { connection, paths, known, options, activate_window },
                ExistingStepModel::Find {
                    connection: model_connection,
                    paths: model_paths,
                    known: model_known,
                    options: model_options,
                    activate_window: model_activate,
                },
            ) => model_connection == connection.deep_view() && model_paths == paths.deep_view()
                && model_known == known.deep_view() && model_options == options && model_activate
                == activate_window,
            (
                ExistingStep::ReadConnection { found, paths, known, activate_window },
                ExistingStepModel::ReadConnection {
                    found: model_found,
                    paths: model_paths,
                    known: model_known,
                    activate_window: model_activate,
                },
            ) => model_found == found && model_paths == paths.deep_view() && model_known
                == known.deep_view() && model_activate == activate_window,
            (
                ExistingStep::Resolve { found, resolution, activate_window },
                ExistingStepModel::Resolve {
                    found: model_found,
                    resolution: model_resolution,
                    activate_window: model_activate,
                },
            ) => model_found == found && model_resolution == resolution.deep_view()
                && model_activate == activate_window,
            (
                ExistingStep::OpenPaths { found, paths, positions, options, activate_window },
                ExistingStepModel::OpenPaths {
                    found: model_found,
                    paths: model_paths,
                    positions: model_positions,
                    options: model_options,
                    activate_window: model_activate,
                },
            ) => model_found == found && model_paths == paths.deep_view() && model_positions
                == positions.deep_view() && model_options == options && model_activate
                == activate_window,
            (
                ExistingStep::ShowErrors { found, errors, navigations },
                ExistingStepModel::ShowErrors {
                    found: model_found,
                    errors: model_errors,
                    navigations: model_navigations,
                },
            ) => model_found == found && model_errors == errors.deep_view() && model_navigations
                == navigations@,
            (
                ExistingStep::Navigate { found, navigations },
                ExistingStepModel::Navigate { found: model_found, navigations: model_navigations },
            ) => model_found == found && model_navigations == navigations@,
            (ExistingStep::Done(outcome), ExistingStepModel::Done(model)) => model
                == outcome.deep_view(),
            _ => false,
        },
        match (outcome, outcome.deep_view()) {
            (ExistingOutcome::Nothing, OutcomeModel::Nothing) => true,
            (ExistingOutcome::Opened(window), OutcomeModel::Opened(model)) => model == window,
            (ExistingOutcome::Failed(error), OutcomeModel::Failed(model)) => model == error@,
            _ => false,
        },
{
}

/// The models of the steps of connecting, and of what an attempt came to, hold all that they are
/// about.
pub proof fn law_models_of_connecting_say_the_same(step: ConnectStep, outcome: AttemptOutcome)
    ensures
        match (step, step.deep_view()) {
            (ConnectStep::Activate, ConnectStepModel::Activate) => true,
            (ConnectStep::CheckFirst(check), ConnectStepModel::CheckFirst(model)) => model
                == check.deep_view(),
            (ConnectStep::Connect, ConnectStepModel::Connect) => true,
            (ConnectStep::Resolve(resolution), ConnectStepModel::Resolve(model)) => model
                == resolution.deep_view(),
            (
                ConnectStep::Lock { paths, positions },
                ConnectStepModel::Lock { paths: model_paths, positions: model_positions },
            ) => model_paths == paths.deep_view() && model_positions == positions.deep_view(),
            (
                ConnectStep::CheckAgain { check, paths, positions },
                ConnectStepModel::CheckAgain {
                    check: model_check,
                    paths: model_paths,
                    positions: model_positions,
                },
            ) => model_check == check.deep_view() && model_paths == paths.deep_view()
                && model_positions == positions.deep_view(),
            (
                ConnectStep::OpenProject { paths, positions },
                ConnectStepModel::OpenProject { paths: model_paths, positions: model_positions },
            ) => model_paths == paths.deep_view() && model_positions == positions.deep_view(),
            (ConnectStep::Navigate(navigations), ConnectStepModel::Navigate(model)) => model
                == navigations@,
            (ConnectStep::FinishModal(outcome), ConnectStepModel::FinishModal(model)) => model
                == outcome.deep_view(),
            (
                ConnectStep::Prompt { message, error, opening_failed },
                ConnectStepModel::Prompt {
                    message: model_message,
                    error: model_error,
                    opening_failed: model_failed,
                },
            ) => model_message == message@ && model_error == error@ && model_failed
                == opening_failed,
            (
                ConnectStep::TrackTrust { workspace },
                ConnectStepModel::TrackTrust { workspace: model },
            ) => model == workspace,
            (ConnectStep::Retry { workspace }, ConnectStepModel::Retry { workspace: model }) =>
                model == workspace,
            (ConnectStep::RemoveWindow(window), ConnectStepModel::RemoveWindow(model)) => model
                == window,
            (ConnectStep::Done(window), ConnectStepModel::Done(model)) => model == window,
            _ => false,
        },
        match (outcome, outcome.deep_view()) {
            (AttemptOutcome::Opened(window), AttemptOutcomeModel::Opened(model)) => model == window,
            (AttemptOutcome::NotOpened, AttemptOutcomeModel::NotOpened) => true,
            (
                AttemptOutcome::Failed { error, opening_failed },
                AttemptOutcomeModel::Failed { error: model_error, opening_failed: model_failed },
            ) => model_error == error@ && model_failed == opening_failed,
            _ => false,
        },
{
}

/// The models of a project that is prepared, ready or connected to hold all that was asked for.
pub proof fn law_models_of_projects_say_the_same(
    preparation: RemoteProjectPreparation,
    project: PreparedRemoteProject,
    connect: RemoteProjectConnect,
    attempt: RemoteConnectionAttempt,
)
    ensures
        preparation.deep_view().connection_options == preparation.connection_options.deep_view(),
        preparation.deep_view().paths == preparation.paths.deep_view(),
        preparation.deep_view().open_options == preparation.open_options,
        preparation.deep_view().step == preparation.step.deep_view(),
        project.deep_view().connection_options == project.connection_options.deep_view(),
        project.deep_view().paths == project.paths.deep_view(),
        project.deep_view().open_options == project.open_options,
        project.deep_view().window == project.window,
        project.deep_view().initial_workspace == project.initial_workspace,
        connect.deep_view().connection_options == connect.connection_options.deep_view(),
        connect.deep_view().paths == connect.paths.deep_view(),
        connect.deep_view().open_options == connect.open_options,
        connect.deep_view().window == connect.window,
        connect.deep_view().initial_workspace == connect.initial_workspace,
        connect.deep_view().activate_window == connect.activate_window,
        connect.deep_view().step == connect.step.deep_view(),
        attempt.deep_view().password == attempt.password.deep_view(),
        attempt.deep_view().close_watch == attempt.close_watch,
        attempt.deep_view().cancellation == attempt.cancellation,
{
}

/// The models of the steps of a preparation, and of its errors, hold all that they are about.
pub proof fn law_models_of_preparing_say_the_same(step: PreparationStep, error: PrepareError)
    ensures
        match (step, step.deep_view()) {
            (
                PreparationStep::ReadWorkspace { window },
                PreparationStepModel::ReadWorkspace { window: model },
            ) => model == window,
            (PreparationStep::FetchPosition, PreparationStepModel::FetchPosition) => true,
            (
                PreparationStep::OpenWindow { position, placeholder, init_worktree_trust },
                PreparationStepModel::OpenWindow {
                    position: model_position,
                    placeholder: model_placeholder,
                    init_worktree_trust: model_trust,
                },
            ) => model_position == position && model_placeholder == placeholder && model_trust
                == init_worktree_trust,
            (
                PreparationStep::ActivateWindow { window },
                PreparationStepModel::ActivateWindow { window: model },
            ) => model == window,
            (
                PreparationStep::ShowModal { window, workspace },
                PreparationStepModel::ShowModal {
                    window: model_window,
                    workspace: model_workspace,
                },
            ) => model_window == window && model_workspace == workspace,
            (
                PreparationStep::Ready { window, workspace },
                PreparationStepModel::Ready { window: model_window, workspace: model_workspace },
            ) => model_window == window && model_workspace == workspace,
            (PreparationStep::Failed(error), PreparationStepModel::Failed(model)) => model
                == error.deep_view(),
            _ => false,
        },
        match (error, error.deep_view()) {
            (PrepareError::Position(error), PrepareErrorModel::Position(model)) => model == error@,
            (PrepareError::Window(error), PrepareErrorModel::Window(model)) => model == error@,
            (PrepareError::Modal, PrepareErrorModel::Modal) => true,
            _ => false,
        },
{
}

/// The models of opening a project, and of its errors, hold all that they are about.
pub proof fn law_models_of_opening_say_the_same(open: RemoteProjectOpen, error: OpenError)
    ensures
        match (open, open.deep_view()) {
            (
                RemoteProjectOpen::Existing { check, connection_options, paths, open_options },
                OpenModel::Existing {
                    check: model_check,
                    connection_options: model_connection,
                    paths: model_paths,
                    open_options: model_options,
                },
            ) => model_check == check.deep_view() && model_connection
                == connection_options.deep_view() && model_paths == paths.deep_view()
                && model_options == open_options,
            (RemoteProjectOpen::Prepare(preparation), OpenModel::Prepare(model)) => model
                == preparation.deep_view(),
            (RemoteProjectOpen::Connect(connect), OpenModel::Connect(model)) => model
                == connect.deep_view(),
            (RemoteProjectOpen::Opened(window), OpenModel::Opened(model)) => model == window,
            (RemoteProjectOpen::Failed(error), OpenModel::Failed(model)) => model
                == error.deep_view(),
            _ => false,
        },
        match (error, error.deep_view()) {
            (OpenError::Existing(error), OpenErrorModel::Existing(model)) => model == error@,
            (OpenError::Prepare(error), OpenErrorModel::Prepare(model)) => model
                == error.deep_view(),
            _ => false,
        },
{
}

} // verus!
