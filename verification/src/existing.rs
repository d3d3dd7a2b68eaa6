//! Opening paths in a workspace that is already open on the project.

use crate::connection::{RemoteConnectionOptions, RemoteOptionsModel};
use crate::events::{Event, EventModel};
use crate::navigate::{
    law_cursors_go_to_the_rows_asked_for, navigate_to_positions, target, targets, Navigation,
};
use crate::paths::{PathModel, PathWithPosition, PositionModel, RemotePath};
use crate::resolve::{
    determine_paths_with_positions, law_each_path_is_resolved, resolved, settle, PathResolution,
    ResolutionModel,
};
use crate::workspace::{
    errors_of, items_of, split_openings, ExistingWorkspace, OpenOptions, OpeningModel, PathOpening,
};
use vstd::prelude::*;

verus! {

/// What came of it.
#[derive(Debug, PartialEq, Eq)]
pub enum ExistingOutcome {
    /// No workspace with a living connection is open on the project.
    Nothing,
    /// The paths were opened in this window.
    Opened(u64),
    /// The paths could not be opened, with this error.
    Failed(String),
}

/// What an [`ExistingOutcome`] is.
pub enum OutcomeModel {
    Nothing,
    Opened(u64),
    Failed(Seq<char>),
}

impl DeepView for ExistingOutcome {
    type V = OutcomeModel;

    open spec fn deep_view(&self) -> OutcomeModel {
        match *self {
            ExistingOutcome::Nothing => OutcomeModel::Nothing,
            ExistingOutcome::Opened(window) => OutcomeModel::Opened(window),
            ExistingOutcome::Failed(error) => OutcomeModel::Failed(error@),
        }
    }
}

/// What is to be done next.
#[derive(Debug, PartialEq, Eq)]
pub enum ExistingStep {
    /// Look for a workspace that is open on `paths` over the connection, and that fits `options`.
    Find {
        connection: RemoteConnectionOptions,
        paths: Vec<RemotePath>,
        known: Option<Vec<PathWithPosition>>,
        options: OpenOptions,
        activate_window: bool,
    },
    /// See whether the workspace that was found still has a connection.
    ReadConnection {
        found: ExistingWorkspace,
        paths: Vec<RemotePath>,
        known: Option<Vec<PathWithPosition>>,
        activate_window: bool,
    },
    /// Answer the question that the resolution of the paths has come to.
    Resolve { found: ExistingWorkspace, resolution: PathResolution, activate_window: bool },
    /// Bring the workspace to the front of its window, and open `paths` in it with `options`.
    /// Activate the window first, if `activate_window` says so.
    OpenPaths {
        found: ExistingWorkspace,
        paths: Vec<RemotePath>,
        positions: Vec<PathWithPosition>,
        options: OpenOptions,
        activate_window: bool,
    },
    /// Show each of `errors` in the workspace.
    ShowErrors { found: ExistingWorkspace, errors: Vec<String>, navigations: Vec<Navigation> },
    /// Move the cursors.
    Navigate { found: ExistingWorkspace, navigations: Vec<Navigation> },
    /// Nothing is left to do.
    Done(ExistingOutcome),
}

/// What an [`ExistingStep`] is.
pub enum ExistingStepModel {
    Find {
        connection: RemoteOptionsModel,
        paths: Seq<PathModel>,
        known: Option<Seq<PositionModel>>,
        options: OpenOptions,
        activate_window: bool,
    },
    ReadConnection {
        found: ExistingWorkspace,
        paths: Seq<PathModel>,
        known: Option<Seq<PositionModel>>,
        activate_window: bool,
    },
    Resolve { found: ExistingWorkspace, resolution: ResolutionModel, activate_window: bool },
    OpenPaths {
        found: ExistingWorkspace,
        paths: Seq<PathModel>,
        positions: Seq<PositionModel>,
        options: OpenOptions,
        activate_window: bool,
    },
    ShowErrors { found: ExistingWorkspace, errors: Seq<Seq<char>>, navigations: Seq<Navigation> },
    Navigate { found: ExistingWorkspace, navigations: Seq<Navigation> },
    Done(OutcomeModel),
}

impl DeepView for ExistingStep {
    type V = ExistingStepModel;

    open spec fn deep_view(&self) -> ExistingStepModel {
        match *self {
            ExistingStep::Find { connection, paths, known, options, activate_window } =>
                ExistingStepModel::Find {
                connection: connection.deep_view(),
                paths: paths.deep_view(),
                known: known.deep_view(),
                options,
                activate_window,
            },
            ExistingStep::ReadConnection { found, paths, known, activate_window } =>
                ExistingStepModel::ReadConnection {
                found,
                paths: paths.deep_view(),
                known: known.deep_view(),
                activate_window,
            },
            ExistingStep::Resolve { found, resolution, activate_window } =>
                ExistingStepModel::Resolve {
                found,
                resolution: resolution.deep_view(),
                activate_window,
            },
            ExistingStep::OpenPaths { found, paths, positions, options, activate_window } =>
                ExistingStepModel::OpenPaths {
                found,
                paths: paths.deep_view(),
                positions: positions.deep_view(),
                options,
                activate_window,
            },
            ExistingStep::ShowErrors { found, errors, navigations } =>
                ExistingStepModel::ShowErrors {
                found,
                errors: errors.deep_view(),
                navigations: navigations@,
            },
            ExistingStep::Navigate { found, navigations } => ExistingStepModel::Navigate {
                found,
                navigations: navigations@,
            },
            ExistingStep::Done(outcome) => ExistingStepModel::Done(outcome.deep_view()),
        }
    }
}

/// The paths, before anything has been looked for. Where the positions in them have been told apart
/// before, they are known.
pub open spec fn unsearched(
    connection: RemoteOptionsModel,
    paths: Seq<PathModel>,
    known: Option<Seq<PositionModel>>,
    options: OpenOptions,
    activate_window: bool,
) -> ExistingStepModel {
    ExistingStepModel::Find { connection, paths, known, options, activate_window }
}

/// Opening paths in the workspace that was found.
pub open spec fn opening(
    found: ExistingWorkspace,
    paths: Seq<PathModel>,
    positions: Seq<PositionModel>,
    activate_window: bool,
) -> ExistingStepModel {
    ExistingStepModel::OpenPaths {
        found,
        paths,
        positions,
        options: OpenOptions { visible: Some(found.open_visible), requesting_window: None },
        activate_window,
    }
}

/// Going on with the resolution of the paths, and then opening them.
pub open spec fn resolving(
    found: ExistingWorkspace,
    resolution: ResolutionModel,
    activate_window: bool,
) -> ExistingStepModel {
    match resolution {
        ResolutionModel::Done { paths, positions } => opening(
            found,
            paths,
            positions,
            activate_window,
        ),
        _ => ExistingStepModel::Resolve { found, resolution, activate_window },
    }
}

impl ExistingStepModel {
    pub open spec fn wf(self) -> bool {
        self matches ExistingStepModel::Resolve { resolution, .. } ==> resolution.wf()
            && resolution !is Done
    }

    /// The step after `event`. An event that does not answer the step changes nothing.
    pub open spec fn next(self, event: EventModel) -> ExistingStepModel {
        match (self, event) {
            (ExistingStepModel::Find { .. }, EventModel::Found(None)) => ExistingStepModel::Done(
                OutcomeModel::Nothing,
            ),
            (
                ExistingStepModel::Find { paths, known, activate_window, .. },
                EventModel::Found(Some(found)),
            ) => ExistingStepModel::ReadConnection { found, paths, known, activate_window },
            (ExistingStepModel::ReadConnection { .. }, EventModel::Connection(false)) =>
                ExistingStepModel::Done(OutcomeModel::Nothing),
            (
                ExistingStepModel::ReadConnection { found, paths, known, activate_window },
                EventModel::Connection(true),
            ) => match known {
                Some(positions) => opening(found, paths, positions, activate_window),
                None => resolving(found, settle(paths, Seq::empty()), activate_window),
            },
            (ExistingStepModel::Resolve { found, resolution, activate_window }, _) => resolving(
                found,
                resolution.next(event),
                activate_window,
            ),
            (ExistingStepModel::OpenPaths { .. }, EventModel::Failed(error)) =>
                ExistingStepModel::Done(OutcomeModel::Failed(error)),
            (
                ExistingStepModel::OpenPaths { found, positions, .. },
                EventModel::PathsOpened(openings),
            ) => ExistingStepModel::ShowErrors {
                found,
                errors: errors_of(openings),
                navigations: targets(items_of(openings), positions),
            },
            (ExistingStepModel::ShowErrors { found, navigations, .. }, EventModel::Performed) =>
                ExistingStepModel::Navigate { found, navigations },
            (ExistingStepModel::Navigate { found, .. }, EventModel::Performed) =>
                ExistingStepModel::Done(OutcomeModel::Opened(found.window)),
            _ => self,
        }
    }

    /// The step after some events.
    pub open spec fn run(self, events: Seq<EventModel>) -> ExistingStepModel
        decreases events.len(),
    {
        if events.len() == 0 {
            self
        } else {
            self.run(events.drop_last()).next(events.last())
        }
    }

    /// Taking the step takes time, during which other things can happen.
    pub open spec fn takes_time(self) -> bool {
        match self {
            ExistingStepModel::Find { .. } => true,
            ExistingStepModel::Resolve { resolution, .. } => resolution is Probe,
            ExistingStepModel::OpenPaths { .. } => true,
            _ => false,
        }
    }
}

fn opening_step(
    found: ExistingWorkspace,
    paths: Vec<RemotePath>,
    positions: Vec<PathWithPosition>,
    activate_window: bool,
) -> (step: ExistingStep)
    ensures
        step.deep_view() == opening(
            found,
            paths.deep_view(),
            positions.deep_view(),
            activate_window,
        ),
{
    let defaults = OpenOptions::default();
    ExistingStep::OpenPaths {
        found,
        paths,
        positions,
        options: OpenOptions { visible: Some(found.open_visible), ..defaults },
        activate_window,
    }
}

fn resolving_step(
    found: ExistingWorkspace,
    resolution: PathResolution,
    activate_window: bool,
) -> (step: ExistingStep)
    requires
        resolution.deep_view().wf(),
    ensures
        step.deep_view() == resolving(found, resolution.deep_view(), activate_window),
        step.deep_view().wf(),
{
    match resolution {
        PathResolution::Done { paths, positions } => opening_step(
            found,
            paths,
            positions,
            activate_window,
        ),
        resolution => ExistingStep::Resolve { found, resolution, activate_window },
    }
}

impl ExistingStep {
    /// Takes in how the step went.
    pub fn next(self, event: Event) -> (step: Self)
        requires
            self.deep_view().wf(),
        ensures
            step.deep_view() == self.deep_view().next(event.deep_view()),
            step.deep_view().wf(),
    {
        match (self, event) {
            (ExistingStep::Find { .. }, Event::Found(None)) => ExistingStep::Done(
                ExistingOutcome::Nothing,
            ),
            (
                ExistingStep::Find { paths, known, activate_window, .. },
                Event::Found(Some(found)),
            ) => ExistingStep::ReadConnection { found, paths, known, activate_window },
            (ExistingStep::ReadConnection { .. }, Event::Connection(false)) => ExistingStep::Done(
                ExistingOutcome::Nothing,
            ),
            (
                ExistingStep::ReadConnection { found, paths, known, activate_window },
                Event::Connection(true),
            ) => match known {
                Some(positions) => opening_step(found, paths, positions, activate_window),
                None => resolving_step(
                    found,
                    determine_paths_with_positions(paths),
                    activate_window,
                ),
            },
            (ExistingStep::Resolve { found, resolution, activate_window }, event) => resolving_step(
                found,
                resolution.next(event),
                activate_window,
            ),
            (ExistingStep::OpenPaths { .. }, Event::Failed(error)) => ExistingStep::Done(
                ExistingOutcome::Failed(error),
            ),
            (
                ExistingStep::OpenPaths { found, positions, .. },
                Event::PathsOpened(openings),
            ) => {
                let (items, errors) = split_openings(&openings);
                let navigations = navigate_to_positions(&items, &positions);
                ExistingStep::ShowErrors { found, errors, navigations }
            },
            (ExistingStep::ShowErrors { found, navigations, .. }, Event::Performed) =>
                ExistingStep::Navigate { found, navigations },
            (ExistingStep::Navigate { found, .. }, Event::Performed) => ExistingStep::Done(
                ExistingOutcome::Opened(found.window),
            ),
            (step, _) => step,
        }
    }

    /// Whether taking the step takes time, during which other things can happen.
    pub fn takes_time(&self) -> (takes_time: bool)
        ensures
            takes_time == self.deep_view().takes_time(),
    {
        match self {
            ExistingStep::Find { .. } => true,
            ExistingStep::Resolve { resolution: PathResolution::Probe { .. }, .. } => true,
            ExistingStep::OpenPaths { .. } => true,
            _ => false,
        }
    }
}

/// Starts to open `paths` in a workspace that is already open on them over the connection. Where
/// the positions in the paths have been told apart before, they are given.
pub fn open_existing_remote_project(
    connection_options: &RemoteConnectionOptions,
    paths: Vec<RemotePath>,
    positions: Option<Vec<PathWithPosition>>,
    open_options: OpenOptions,
    activate_window: bool,
) -> (step: ExistingStep)
    ensures
        step.deep_view() == unsearched(
            connection_options.deep_view(),
            paths.deep_view(),
            positions.deep_view(),
            open_options,
            activate_window,
        ),
        step.deep_view().wf(),
{
    ExistingStep::Find {
        connection: connection_options.clone(),
        paths,
        known: positions,
        options: open_options,
        activate_window,
    }
}

/// An open workspace in this window was reported.
pub open spec fn reported(events: Seq<EventModel>, window: u64) -> bool {
    exists|i: int|
        0 <= i < events.len() && (#[trigger] events[i] matches EventModel::Found(Some(found))
            && found.window == window)
}

/// An open workspace in this window was reported, and then that it has a connection.
pub open spec fn reported_alive(events: Seq<EventModel>, window: u64) -> bool {
    exists|i: int, j: int|
        0 <= i < j < events.len() && #[trigger] events[j] == EventModel::Connection(true) && (
        #[trigger] events[i] matches EventModel::Found(Some(found)) && found.window == window)
}

/// What the step says of the open workspace was reported.
pub(crate) open spec fn is_reported(step: ExistingStepModel, events: Seq<EventModel>) -> bool {
    match step {
        ExistingStepModel::Find { .. } => true,
        ExistingStepModel::ReadConnection { found, .. } => reported(events, found.window),
        ExistingStepModel::Resolve { found, .. } => reported_alive(events, found.window),
        ExistingStepModel::OpenPaths { found, .. } => reported_alive(events, found.window),
        ExistingStepModel::ShowErrors { found, .. } => reported_alive(events, found.window),
        ExistingStepModel::Navigate { found, .. } => reported_alive(events, found.window),
        ExistingStepModel::Done(OutcomeModel::Opened(window)) => reported_alive(events, window),
        ExistingStepModel::Done(_) => true,
    }
}

pub(crate) proof fn lemma_reported_earlier(events: Seq<EventModel>, window: u64)
    requires
        events.len() > 0,
    ensures
        reported(events.drop_last(), window) ==> reported(events, window),
        reported_alive(events.drop_last(), window) ==> reported_alive(events, window),
        reported_alive(events, window) ==> reported(events, window),
{
    let earlier = events.drop_last();
    if reported(earlier, window) {
        let i = choose|i: int|
            0 <= i < earlier.len() && (#[trigger] earlier[i] matches EventModel::Found(Some(found))
                && found.window == window);
        assert(events[i] == earlier[i]);
    }
    if reported_alive(earlier, window) {
        let (i, j) = choose|i: int, j: int|
            0 <= i < j < earlier.len() && #[trigger] earlier[j] == EventModel::Connection(true) && (
            #[trigger] earlier[i] matches EventModel::Found(Some(found)) && found.window == window);
        assert(events[i] == earlier[i]);
        assert(events[j] == earlier[j]);
    }
}

pub(crate) proof fn lemma_is_reported(step: ExistingStepModel, events: Seq<EventModel>)
    requires
        events.len() > 0,
        is_reported(step, events.drop_last()),
    ensures
        is_reported(step.next(events.last()), events),
{
    let earlier = events.drop_last();
    let last = events.len() - 1;
    assert(events[last] == events.last());
    assert forall|window: u64| #[trigger] reported(earlier, window) implies reported(
        events,
        window,
    ) by {
        lemma_reported_earlier(events, window);
    }
    assert forall|window: u64| #[trigger] reported_alive(earlier, window) implies reported_alive(
        events,
        window,
    ) by {
        lemma_reported_earlier(events, window);
    }
    if step is ReadConnection && events.last() == EventModel::Connection(true) {
        let window = step->ReadConnection_found.window;
        let i = choose|i: int|
            0 <= i < earlier.len() && (#[trigger] earlier[i] matches EventModel::Found(Some(found))
                && found.window == window);
        assert(events[i] == earlier[i]);
        assert(events[last] == EventModel::Connection(true));
        assert(reported_alive(events, window));
    }
}

/// Paths are only ever opened in the window of a workspace that was found to be open on them, and
/// then found to have a connection.
pub proof fn law_only_a_live_workspace_is_reused(
    connection: RemoteOptionsModel,
    paths: Seq<PathModel>,
    positions: Option<Seq<PositionModel>>,
    options: OpenOptions,
    activate_window: bool,
    events: Seq<EventModel>,
)
    ensures
        ({
            let now = unsearched(connection, paths, positions, options, activate_window).run(
                events,
            );
            &&& now matches ExistingStepModel::OpenPaths { found, .. } ==> reported_alive(
                events,
                found.window,
            )
            &&& now matches ExistingStepModel::Done(OutcomeModel::Opened(window))
                ==> reported_alive(events, window)
        }),
{
    lemma_run_is_reported(connection, paths, positions, options, activate_window, events);
}

proof fn lemma_run_is_reported(
    connection: RemoteOptionsModel,
    paths: Seq<PathModel>,
    positions: Option<Seq<PositionModel>>,
    options: OpenOptions,
    activate_window: bool,
    events: Seq<EventModel>,
)
    ensures
        is_reported(
            unsearched(connection, paths, positions, options, activate_window).run(events),
            events,
        ),
    decreases events.len(),
{
    if events.len() > 0 {
        let start = unsearched(connection, paths, positions, options, activate_window);
        lemma_run_is_reported(
            connection,
            paths,
            positions,
            options,
            activate_window,
            events.drop_last(),
        );
        lemma_is_reported(start.run(events.drop_last()), events);
    }
}

/// A workspace whose connection is dead counts as none.
pub proof fn law_a_dead_connection_counts_as_none(
    connection: RemoteOptionsModel,
    paths: Seq<PathModel>,
    positions: Option<Seq<PositionModel>>,
    options: OpenOptions,
    activate_window: bool,
    found: ExistingWorkspace,
)
    ensures
        unsearched(connection, paths, positions, options, activate_window).next(
            EventModel::Found(Some(found)),
        ).next(EventModel::Connection(false)) == unsearched(
            connection,
            paths,
            positions,
            options,
            activate_window,
        ).next(EventModel::Found(None)),
{
}

impl ExistingStepModel {
    /// The step after the next `n` questions about the paths have been answered truly.
    pub open spec fn resolved(
        self,
        parse: spec_fn(Seq<char>) -> PositionModel,
        present: spec_fn(PathModel) -> bool,
        n: nat,
    ) -> ExistingStepModel
        decreases n,
    {
        if n == 0 {
            self
        } else {
            match self.resolved(parse, present, (n - 1) as nat) {
                ExistingStepModel::Resolve { found, resolution, activate_window } =>
                    ExistingStepModel::Resolve { found, resolution, activate_window }.next(
                    resolution.answer(parse, present),
                ),
                earlier => earlier,
            }
        }
    }
}

/// In a workspace that is already open, the paths that are opened are those that were asked for,
/// each told apart from the position in it; where that was done before, they are the given ones.
pub proof fn law_a_live_workspace_opens_the_resolved_paths(
    found: ExistingWorkspace,
    connection: RemoteOptionsModel,
    paths: Seq<PathModel>,
    positions: Option<Seq<PositionModel>>,
    options: OpenOptions,
    activate_window: bool,
    parse: spec_fn(Seq<char>) -> PositionModel,
    present: spec_fn(PathModel) -> bool,
    n: nat,
)
    requires
        n >= 2 * paths.len(),
    ensures
        ({
            let alive = unsearched(connection, paths, positions, options, activate_window).next(
                EventModel::Found(Some(found)),
            ).next(EventModel::Connection(true));
            alive.resolved(parse, present, n) == (match positions {
                Some(positions) => opening(found, paths, positions, activate_window),
                None => opening(
                    found,
                    paths.map_values(|path: PathModel| resolved(path, parse, present).path),
                    paths.map_values(|path: PathModel| resolved(path, parse, present)),
                    activate_window,
                ),
            })
        }),
{
    let alive = unsearched(connection, paths, positions, options, activate_window).next(
        EventModel::Found(Some(found)),
    ).next(EventModel::Connection(true));
    match positions {
        Some(_) => {
            lemma_opening_stays(alive, parse, present, n);
        },
        None => {
            lemma_resolving(found, settle(paths, Seq::empty()), activate_window, parse, present, n);
            law_each_path_is_resolved(paths, parse, present, n);
        },
    }
}

proof fn lemma_opening_stays(
    step: ExistingStepModel,
    parse: spec_fn(Seq<char>) -> PositionModel,
    present: spec_fn(PathModel) -> bool,
    n: nat,
)
    requires
        step is OpenPaths,
    ensures
        step.resolved(parse, present, n) == step,
    decreases n,
{
    if n > 0 {
        lemma_opening_stays(step, parse, present, (n - 1) as nat);
    }
}

proof fn lemma_resolving(
    found: ExistingWorkspace,
    resolution: ResolutionModel,
    activate_window: bool,
    parse: spec_fn(Seq<char>) -> PositionModel,
    present: spec_fn(PathModel) -> bool,
    n: nat,
)
    ensures
        resolving(found, resolution, activate_window).resolved(parse, present, n) == resolving(
            found,
            resolution.after(parse, present, n),
            activate_window,
        ),
    decreases n,
{
    if n > 0 {
        lemma_resolving(found, resolution, activate_window, parse, present, (n - 1) as nat);
    }
}

/// Every error is shown, and the cursor goes to the position asked for in every item that was
/// opened for a path with a row.
pub proof fn law_errors_are_shown(
    found: ExistingWorkspace,
    paths: Seq<PathModel>,
    positions: Seq<PositionModel>,
    activate_window: bool,
    openings: Seq<OpeningModel>,
    i: int,
)
    requires
        0 <= i < openings.len(),
    ensures
        ({
            let shown = opening(found, paths, positions, activate_window).next(
                EventModel::PathsOpened(openings),
            );
            &&& shown is ShowErrors
            &&& openings[i] matches OpeningModel::Error(error)
                ==> shown->ShowErrors_errors.contains(error)
            &&& i < positions.len() && openings[i] is Item && positions[i].row is Some
                ==> shown->ShowErrors_navigations.contains(
                target(Some(openings[i]->Item_0), positions[i])->0,
            )
        }),
{
    lemma_errors_of(openings, i);
    if i < positions.len() && openings[i] is Item && positions[i].row is Some {
        let items = items_of(openings);
        assert(items[i] == Some(openings[i]->Item_0));
        law_cursors_go_to_the_rows_asked_for(items, positions, target(items[i], positions[i])->0);
    }
}

proof fn lemma_errors_of(openings: Seq<OpeningModel>, i: int)
    requires
        0 <= i < openings.len(),
    ensures
        openings[i] matches OpeningModel::Error(error) ==> errors_of(openings).contains(error),
    decreases openings.len(),
{
    if openings[i] is Error {
        let before = errors_of(openings.drop_last());
        let after = errors_of(openings);
        let error = openings[i]->Error_0;
        if i < openings.len() - 1 {
            lemma_errors_of(openings.drop_last(), i);
            let j = choose|j: int| 0 <= j < before.len() && before[j] == error;
            assert(after[j] == error);
        } else {
            assert(after[after.len() - 1] == error);
        }
    }
}

} // verus!
