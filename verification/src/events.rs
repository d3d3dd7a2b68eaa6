//! What the surroundings report back while a remote project is being opened.
//!
//! Opening a project is a conversation: the library says what is to be done next, the caller does
//! it, and reports how it went with an [`Event`].

use crate::paths::{PathWithPosition, PositionModel};
use crate::workspace::{ExistingWorkspace, OpeningModel, PathOpening};
use vstd::prelude::*;

verus! {

/// A report on the step that was to be taken.
#[derive(Debug, PartialEq, Eq)]
pub enum Event {
    /// The step was taken.
    Performed,
    /// The step failed, with this error.
    Failed(String),
    /// The attempt to connect was cancelled.
    Cancelled,
    /// The search for a workspace that is already open came to an end.
    Found(Option<ExistingWorkspace>),
    /// Whether the workspace that was found still has a connection.
    Connection(bool),
    /// How the path in question reads as a path with a position.
    Parsed(PathWithPosition),
    /// Whether the path in question exists.
    Probed(bool),
    /// What came of opening each path.
    PathsOpened(Vec<PathOpening>),
    /// The project was opened, with an item for each path that named a file; or there is no
    /// workspace for it.
    ProjectOpened(Option<Vec<Option<u64>>>),
    /// The index of the answer to the prompt, if one was given.
    Answered(Option<usize>),
    /// Whether everything is in place for another attempt to connect.
    AttemptPrepared(bool),
    /// The position of the window was looked up.
    PositionFetched(u64),
    /// A window was opened.
    WindowOpened(u64),
    /// The workspace in the window in question.
    WorkspaceRead(u64),
}

/// What an [`Event`] is.
pub enum EventModel {
    Performed,
    Failed(Seq<char>),
    Cancelled,
    Found(Option<ExistingWorkspace>),
    Connection(bool),
    Parsed(PositionModel),
    Probed(bool),
    PathsOpened(Seq<OpeningModel>),
    ProjectOpened(Option<Seq<Option<u64>>>),
    Answered(Option<usize>),
    AttemptPrepared(bool),
    PositionFetched(u64),
    WindowOpened(u64),
    WorkspaceRead(u64),
}

impl DeepView for Event {
    type V = EventModel;

    open spec fn deep_view(&self) -> EventModel {
        match *self {
            Event::Performed => EventModel::Performed,
            Event::Failed(error) => EventModel::Failed(error@),
            Event::Cancelled => EventModel::Cancelled,
            Event::Found(found) => EventModel::Found(found),
            Event::Connection(alive) => EventModel::Connection(alive),
            Event::Parsed(position) => EventModel::Parsed(position.deep_view()),
            Event::Probed(exists_there) => EventModel::Probed(exists_there),
            Event::PathsOpened(openings) => EventModel::PathsOpened(openings.deep_view()),
            Event::ProjectOpened(None) => EventModel::ProjectOpened(None),
            Event::ProjectOpened(Some(items)) => EventModel::ProjectOpened(Some(items@)),
            Event::Answered(answer) => EventModel::Answered(answer),
            Event::AttemptPrepared(ready) => EventModel::AttemptPrepared(ready),
            Event::PositionFetched(position) => EventModel::PositionFetched(position),
            Event::WindowOpened(window) => EventModel::WindowOpened(window),
            Event::WorkspaceRead(workspace) => EventModel::WorkspaceRead(workspace),
        }
    }
}

/// The model of a report says just what the report says.
pub proof fn law_models_of_events_say_the_same(event: Event)
    ensures
        match (event, event.deep_view()) {
            (Event::Performed, EventModel::Performed) => true,
            (Event::Failed(error), EventModel::Failed(model)) => model == error@,
            (Event::Cancelled, EventModel::Cancelled) => true,
            (Event::Found(found), EventModel::Found(model)) => model == found,
            (Event::Connection(alive), EventModel::Connection(model)) => model == alive,
            (Event::Parsed(position), EventModel::Parsed(model)) => model == position.deep_view(),
            (Event::Probed(there), EventModel::Probed(model)) => model == there,
            (Event::PathsOpened(openings), EventModel::PathsOpened(model)) => model
                == openings.deep_view(),
            (Event::ProjectOpened(Some(items)), EventModel::ProjectOpened(Some(model))) => model
                == items@,
            (Event::ProjectOpened(None), EventModel::ProjectOpened(None)) => true,
            (Event::Answered(answer), EventModel::Answered(model)) => model == answer,
            (Event::AttemptPrepared(ready), EventModel::AttemptPrepared(model)) => model == ready,
            (Event::PositionFetched(position), EventModel::PositionFetched(model)) => model
                == position,
            (Event::WindowOpened(window), EventModel::WindowOpened(model)) => model == window,
            (Event::WorkspaceRead(workspace), EventModel::WorkspaceRead(model)) => model
                == workspace,
            _ => false,
        },
{
}

/// The model of what came of a path says just what came of it.
pub proof fn law_models_of_openings_say_the_same(opening: PathOpening)
    ensures
        match (opening, opening.deep_view()) {
            (PathOpening::Nothing, OpeningModel::Nothing) => true,
            (PathOpening::Item(item), OpeningModel::Item(model)) => model == item,
            (PathOpening::Error(error), OpeningModel::Error(model)) => model == error@,
            _ => false,
        },
{
}

} // verus!
