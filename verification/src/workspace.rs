//! Workspaces and what is opened in them.

use vstd::prelude::*;

verus! {

/// Which of the opened paths show up in the project panel.
#[derive(Clone, Copy, Debug, PartialEq, Eq, Structural)]
pub enum OpenVisible {
    All,
    Nothing,
    OnlyFiles,
    OnlyDirectories,
}

/// A workspace that is already open on the project that was asked for.
#[derive(Clone, Copy, Debug, PartialEq, Eq, Structural)]
pub struct ExistingWorkspace {
    pub window: u64,
    pub workspace: u64,
    pub open_visible: OpenVisible,
}

/// What came of opening one path.
#[derive(Debug, PartialEq, Eq)]
pub enum PathOpening {
    /// The path names no file, so that nothing was opened for it.
    Nothing,
    /// The item that shows the file.
    Item(u64),
    /// Why the file could not be opened.
    Error(String),
}

/// What a [`PathOpening`] is.
pub enum OpeningModel {
    Nothing,
    Item(u64),
    Error(Seq<char>),
}

impl DeepView for PathOpening {
    type V = OpeningModel;

    open spec fn deep_view(&self) -> OpeningModel {
        match *self {
            PathOpening::Nothing => OpeningModel::Nothing,
            PathOpening::Item(item) => OpeningModel::Item(item),
            PathOpening::Error(error) => OpeningModel::Error(error@),
        }
    }
}

/// How something is to be opened.
#[derive(Clone, Copy, Debug, PartialEq, Eq, Structural)]
pub struct OpenOptions {
    /// Which of the opened paths show up in the project panel, unless that is left open.
    pub visible: Option<OpenVisible>,
    /// The window to open it in. Without one, a new window is opened.
    pub requesting_window: Option<u64>,
}

impl Default for OpenOptions {
    fn default() -> (options: Self)
        ensures
            options == (OpenOptions { visible: None, requesting_window: None }),
    {
        OpenOptions { visible: None, requesting_window: None }
    }
}

/// The items that were opened, one for each path.
pub open spec fn items_of(openings: Seq<OpeningModel>) -> Seq<Option<u64>> {
    openings.map_values(
        |opening: OpeningModel|
            match opening {
                OpeningModel::Item(item) => Some(item),
                _ => None,
            },
    )
}

/// The errors among the openings, in their order.
pub open spec fn errors_of(openings: Seq<OpeningModel>) -> Seq<Seq<char>>
    decreases openings.len(),
{
    if openings.len() == 0 {
        Seq::empty()
    } else {
        let before = errors_of(openings.drop_last());
        match openings.last() {
            OpeningModel::Error(error) => before.push(error),
            _ => before,
        }
    }
}

/// Takes the items and the errors out of the openings.
pub fn split_openings(openings: &Vec<PathOpening>) -> (split: (Vec<Option<u64>>, Vec<String>))
    ensures
        split.0@ == items_of(openings.deep_view()),
        split.1.deep_view() == errors_of(openings.deep_view()),
{
    let mut items: Vec<Option<u64>> = Vec::new();
    let mut errors: Vec<String> = Vec::new();
    let ghost all = openings.deep_view();
    assert(errors.deep_view() =~= errors_of(all.take(0)));
    while items.len() < openings.len()
        invariant
            all == openings.deep_view(),
            items@.len() <= openings@.len(),
            items@ == items_of(all.take(items@.len() as int)),
            errors.deep_view() == errors_of(all.take(items@.len() as int)),
        decreases openings@.len() - items@.len(),
    {
        let i: usize = items.len();
        let ghost seen = errors.deep_view();
        let ghost shown = items@;
        assert(all.take(i + 1).drop_last() =~= all.take(i as int));
        assert(all.take(i + 1).last() == openings@[i as int].deep_view());
        match &openings[i] {
            PathOpening::Nothing => items.push(None),
            PathOpening::Item(item) => items.push(Some(*item)),
            PathOpening::Error(error) => {
                items.push(None);
                errors.push(error.clone());
                assert(errors.deep_view() =~= seen.push(error@));
            },
        }
        assert(items@ =~= items_of(all.take(i + 1)));
    }
    assert(all.take(items@.len() as int) =~= all);
    (items, errors)
}

/// Each opening has its place among the items, which holds the item that was opened, if one was.
pub proof fn law_each_opening_keeps_its_place(openings: Seq<OpeningModel>, i: int)
    requires
        0 <= i < openings.len(),
    ensures
        items_of(openings).len() == openings.len(),
        openings[i] matches OpeningModel::Item(item) ==> items_of(openings)[i] == Some(item),
        openings[i] !is Item ==> items_of(openings)[i] is None,
{
}

/// The errors are those of the openings that failed, one for each, in their order.
pub proof fn law_errors_come_in_order(
    openings: Seq<OpeningModel>,
    more: Seq<OpeningModel>,
    opening: OpeningModel,
)
    ensures
        errors_of(openings + more) == errors_of(openings) + errors_of(more),
        errors_of(Seq::empty()) == Seq::<Seq<char>>::empty(),
        opening matches OpeningModel::Error(error) ==> errors_of(seq![opening]) == seq![error],
        opening !is Error ==> errors_of(seq![opening]) == Seq::<Seq<char>>::empty(),
    decreases more.len(),
{
    reveal_with_fuel(errors_of, 2);
    assert(seq![opening].drop_last() =~= Seq::empty());
    assert(seq![opening].last() == opening);
    if opening is Error {
        assert(errors_of(seq![opening]) =~= seq![opening->Error_0]);
    }
    if more.len() == 0 {
        assert(openings + more =~= openings);
        assert(errors_of(openings) + errors_of(more) =~= errors_of(openings));
    } else {
        law_errors_come_in_order(openings, more.drop_last(), opening);
        assert((openings + more).drop_last() =~= openings + more.drop_last());
        assert((openings + more).last() == more.last());
        assert(errors_of(openings + more) =~= errors_of(openings) + errors_of(more));
    }
}

/// By default nothing is said of what shows up, and a new window is opened.
pub proof fn law_nothing_is_asked_for_by_default(options: OpenOptions)
    requires
        call_ensures(OpenOptions::default, (), options),
    ensures
        options.visible is None,
        options.requesting_window is None,
{
}

} // verus!
