//! Paths on a remote machine, and positions in the files they name.

use vstd::prelude::*;

verus! {

/// A path on a remote machine.
#[derive(Debug, PartialEq, Eq)]
pub enum RemotePath {
    /// A path that is text.
    Text(String),
    /// The bytes of a path that is not valid text.
    Encoded(Vec<u8>),
}

/// What a [`RemotePath`] is.
pub enum PathModel {
    Text(Seq<char>),
    Encoded(Seq<u8>),
}

impl DeepView for RemotePath {
    type V = PathModel;

    open spec fn deep_view(&self) -> PathModel {
        match *self {
            RemotePath::Text(text) => PathModel::Text(text@),
            RemotePath::Encoded(bytes) => PathModel::Encoded(bytes@),
        }
    }
}

impl RemotePath {
    /// Whether the path is text.
    pub fn is_text(&self) -> (text: bool)
        ensures
            text == (self.deep_view() is Text),
    {
        match self {
            RemotePath::Text(_) => true,
            RemotePath::Encoded(_) => false,
        }
    }
}

impl Clone for RemotePath {
    fn clone(&self) -> (path: Self)
        ensures
            path.deep_view() == self.deep_view(),
    {
        match self {
            RemotePath::Text(text) => RemotePath::Text(text.clone()),
            RemotePath::Encoded(bytes) => {
                let copy = bytes.clone();
                assert(copy@ =~= bytes@);
                RemotePath::Encoded(copy)
            },
        }
    }
}

/// A path, and possibly a row and a column in the file it names. Rows and columns count from one.
#[derive(Debug, PartialEq, Eq)]
pub struct PathWithPosition {
    pub path: RemotePath,
    pub row: Option<u32>,
    pub column: Option<u32>,
}

/// What a [`PathWithPosition`] is.
pub struct PositionModel {
    pub path: PathModel,
    pub row: Option<u32>,
    pub column: Option<u32>,
}

impl DeepView for PathWithPosition {
    type V = PositionModel;

    open spec fn deep_view(&self) -> PositionModel {
        PositionModel { path: self.path.deep_view(), row: self.row, column: self.column }
    }
}

impl Clone for PathWithPosition {
    fn clone(&self) -> (position: Self)
        ensures
            position.deep_view() == self.deep_view(),
    {
        PathWithPosition { path: self.path.clone(), row: self.row, column: self.column }
    }
}

/// A path without a position.
pub open spec fn without_position(path: PathModel) -> PositionModel {
    PositionModel { path, row: None, column: None }
}

impl PathWithPosition {
    /// The path, without a position.
    pub fn from_path(path: RemotePath) -> (position: Self)
        ensures
            position.deep_view() == without_position(path.deep_view()),
    {
        PathWithPosition { path, row: None, column: None }
    }
}

pub(crate) fn clone_paths(paths: &Vec<RemotePath>) -> (copy: Vec<RemotePath>)
    ensures
        copy.deep_view() == paths.deep_view(),
{
    let copy = paths.clone();
    assert(copy.deep_view() =~= paths.deep_view());
    copy
}

pub(crate) fn clone_positions(positions: &Vec<PathWithPosition>) -> (copy: Vec<PathWithPosition>)
    ensures
        copy.deep_view() == positions.deep_view(),
{
    let copy = positions.clone();
    assert(copy.deep_view() =~= positions.deep_view());
    copy
}

/// A path without a position is just that path.
pub proof fn law_a_path_alone_has_no_position(path: PathModel)
    ensures
        without_position(path).path == path,
        without_position(path).row is None,
        without_position(path).column is None,
{
}

/// Paths and positions with the same model hold the same, so that nothing is lost in a copy.
pub proof fn law_models_of_paths_tell_them_apart(a: PathWithPosition, b: PathWithPosition)
    ensures
        a.deep_view() == b.deep_view() ==> a.row == b.row && a.column == b.column
            && a.path.deep_view() == b.path.deep_view(),
        a.path.deep_view() == b.path.deep_view() ==> match (a.path, b.path) {
            (RemotePath::Text(text), RemotePath::Text(other)) => text@ == other@,
            (RemotePath::Encoded(bytes), RemotePath::Encoded(other)) => bytes@ == other@,
            _ => false,
        },
        a.deep_view().row == a.row,
        a.deep_view().column == a.column,
        a.deep_view().path == a.path.deep_view(),
        a.path.deep_view() is Text <==> a.path is Text,
        a.path matches RemotePath::Text(text) ==> a.path.deep_view() == PathModel::Text(text@),
        a.path matches RemotePath::Encoded(bytes) ==> a.path.deep_view() == PathModel::Encoded(
            bytes@,
        ),
{
}

} // verus!
