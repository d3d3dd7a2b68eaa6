//! Telling positions apart from paths: `file.txt:3` is row three of `file.txt`, unless a file of
//! that very name exists.

use crate::events::{Event, EventModel};
use crate::paths::{without_position, PathModel, PathWithPosition, PositionModel, RemotePath};
use vstd::prelude::*;

verus! {

/// How far the paths have been resolved. The path in question is the first without a position.
#[derive(Debug, PartialEq, Eq)]
pub enum PathResolution {
    /// The path in question is text: read it as a path with a position.
    Parse { paths: Vec<RemotePath>, positions: Vec<PathWithPosition> },
    /// The path in question reads as `parsed`, which has a row: see whether it exists as it is.
    Probe { paths: Vec<RemotePath>, positions: Vec<PathWithPosition>, parsed: PathWithPosition },
    /// All paths are resolved.
    Done { paths: Vec<RemotePath>, positions: Vec<PathWithPosition> },
}

/// What a [`PathResolution`] is.
pub enum ResolutionModel {
    Parse { paths: Seq<PathModel>, positions: Seq<PositionModel> },
    Probe { paths: Seq<PathModel>, positions: Seq<PositionModel>, parsed: PositionModel },
    Done { paths: Seq<PathModel>, positions: Seq<PositionModel> },
}

impl DeepView for PathResolution {
    type V = ResolutionModel;

    open spec fn deep_view(&self) -> ResolutionModel {
        match *self {
            PathResolution::Parse { paths, positions } => ResolutionModel::Parse {
                paths: paths.deep_view(),
                positions: positions.deep_view(),
            },
            PathResolution::Probe { paths, positions, parsed } => ResolutionModel::Probe {
                paths: paths.deep_view(),
                positions: positions.deep_view(),
                parsed: parsed.deep_view(),
            },
            PathResolution::Done { paths, positions } => ResolutionModel::Done {
                paths: paths.deep_view(),
                positions: positions.deep_view(),
            },
        }
    }
}

/// Goes on to the next path that is text. A path that is not text has no position.
pub open spec fn settle(paths: Seq<PathModel>, positions: Seq<PositionModel>) -> ResolutionModel
    decreases paths.len() - positions.len(),
{
    if positions.len() >= paths.len() {
        ResolutionModel::Done { paths, positions }
    } else if paths[positions.len() as int] is Text {
        ResolutionModel::Parse { paths, positions }
    } else {
        settle(paths, positions.push(without_position(paths[positions.len() as int])))
    }
}

impl ResolutionModel {
    pub open spec fn wf(self) -> bool {
        match self {
            ResolutionModel::Parse { paths, positions } => {
                &&& positions.len() < paths.len()
                &&& paths[positions.len() as int] is Text
            },
            ResolutionModel::Probe { paths, positions, parsed } => {
                &&& positions.len() < paths.len()
                &&& paths[positions.len() as int] is Text
                &&& parsed.row is Some
            },
            ResolutionModel::Done { paths, positions } => positions.len() == paths.len(),
        }
    }

    /// What `event` makes of the resolution: a path with a row that does not exist as it is gives
    /// way to the path that was read off it; any other path stays, and has no position. An event
    /// that does not answer the question changes nothing.
    pub open spec fn next(self, event: EventModel) -> ResolutionModel {
        match (self, event) {
            (ResolutionModel::Parse { paths, positions }, EventModel::Parsed(parsed)) => {
                if parsed.row is Some {
                    ResolutionModel::Probe { paths, positions, parsed }
                } else {
                    settle(paths, positions.push(without_position(paths[positions.len() as int])))
                }
            },
            (ResolutionModel::Probe { paths, positions, parsed }, EventModel::Probed(found)) => {
                if found {
                    settle(paths, positions.push(without_position(paths[positions.len() as int])))
                } else {
                    settle(
                        paths.update(positions.len() as int, parsed.path),
                        positions.push(parsed),
                    )
                }
            },
            _ => self,
        }
    }
}

/// [`settle`], on what is there.
fn settle_from(paths: Vec<RemotePath>, positions: Vec<PathWithPosition>) -> (resolution:
    PathResolution)
    requires
        positions@.len() <= paths@.len(),
    ensures
        resolution.deep_view() == settle(paths.deep_view(), positions.deep_view()),
        resolution.deep_view().wf(),
{
    let ghost goal = settle(paths.deep_view(), positions.deep_view());
    let mut positions = positions;
    while positions.len() < paths.len() && !paths[positions.len()].is_text()
        invariant
            positions@.len() <= paths@.len(),
            settle(paths.deep_view(), positions.deep_view()) == goal,
        decreases paths@.len() - positions@.len(),
    {
        let k: usize = positions.len();
        let ghost before = positions.deep_view();
        positions.push(PathWithPosition::from_path(paths[k].clone()));
        assert(positions.deep_view() =~= before.push(
            without_position(paths.deep_view()[k as int]),
        ));
    }
    if positions.len() < paths.len() {
        PathResolution::Parse { paths, positions }
    } else {
        PathResolution::Done { paths, positions }
    }
}

/// Starts to tell the paths apart from the positions in them.
pub fn determine_paths_with_positions(paths: Vec<RemotePath>) -> (resolution: PathResolution)
    ensures
        resolution.deep_view() == settle(paths.deep_view(), Seq::empty()),
        resolution.deep_view().wf(),
{
    let positions: Vec<PathWithPosition> = Vec::new();
    assert(positions.deep_view() =~= Seq::<PositionModel>::empty());
    settle_from(paths, positions)
}

impl PathResolution {
    /// Takes in the answer to the question that is open.
    pub fn next(self, event: Event) -> (resolution: Self)
        requires
            self.deep_view().wf(),
        ensures
            resolution.deep_view() == self.deep_view().next(event.deep_view()),
            resolution.deep_view().wf(),
    {
        match (self, event) {
            (PathResolution::Parse { paths, mut positions }, Event::Parsed(parsed)) => {
                if parsed.row.is_some() {
                    return PathResolution::Probe { paths, positions, parsed };
                }
                let k: usize = positions.len();
                let ghost before = positions.deep_view();
                positions.push(PathWithPosition::from_path(paths[k].clone()));
                assert(positions.deep_view() =~= before.push(
                    without_position(paths.deep_view()[k as int]),
                ));
                settle_from(paths, positions)
            },
            (
                PathResolution::Probe { mut paths, mut positions, parsed },
                Event::Probed(exists_there),
            ) => {
                let k: usize = positions.len();
                let ghost old_paths = paths.deep_view();
                let ghost before = positions.deep_view();
                if exists_there {
                    positions.push(PathWithPosition::from_path(paths[k].clone()));
                    assert(positions.deep_view() =~= before.push(
                        without_position(paths.deep_view()[k as int]),
                    ));
                } else {
                    let ghost model = parsed.deep_view();
                    paths.set(k, parsed.path.clone());
                    positions.push(parsed);
                    assert(paths.deep_view() =~= old_paths.update(k as int, model.path));
                    assert(positions.deep_view() =~= before.push(model));
                }
                settle_from(paths, positions)
            },
            (resolution, _) => resolution,
        }
    }
}

/// What a path resolves to, where `parse` reads text as a path with a position, and `present` tells
/// which paths exist.
pub open spec fn resolved(
    path: PathModel,
    parse: spec_fn(Seq<char>) -> PositionModel,
    present: spec_fn(PathModel) -> bool,
) -> PositionModel {
    match path {
        PathModel::Text(text) if parse(text).row is Some && !present(path) => parse(text),
        _ => without_position(path),
    }
}

impl ResolutionModel {
    /// The true answer to the question that is open.
    pub open spec fn answer(
        self,
        parse: spec_fn(Seq<char>) -> PositionModel,
        present: spec_fn(PathModel) -> bool,
    ) -> EventModel {
        match self {
            ResolutionModel::Parse { paths, positions } => EventModel::Parsed(
                parse(paths[positions.len() as int]->Text_0),
            ),
            ResolutionModel::Probe { paths, positions, .. } => EventModel::Probed(
                present(paths[positions.len() as int]),
            ),
            ResolutionModel::Done { .. } => EventModel::Performed,
        }
    }

    /// The resolution after `n` true answers.
    pub open spec fn after(
        self,
        parse: spec_fn(Seq<char>) -> PositionModel,
        present: spec_fn(PathModel) -> bool,
        n: nat,
    ) -> ResolutionModel
        decreases n,
    {
        if n == 0 {
            self
        } else {
            let earlier = self.after(parse, present, (n - 1) as nat);
            earlier.next(earlier.answer(parse, present))
        }
    }

    /// How many answers can still be taken in.
    pub(crate) open spec fn open_questions(self) -> int {
        match self {
            ResolutionModel::Parse { paths, positions } => 2 * (paths.len() - positions.len()),
            ResolutionModel::Probe { paths, positions, .. } => 2 * (paths.len() - positions.len())
                - 1,
            ResolutionModel::Done { .. } => 0,
        }
    }

    /// The resolution is about `n` paths.
    pub(crate) open spec fn is_about(self, n: nat) -> bool {
        match self {
            ResolutionModel::Parse { paths, .. } => paths.len() == n,
            ResolutionModel::Probe { paths, .. } => paths.len() == n,
            ResolutionModel::Done { paths, .. } => paths.len() == n,
        }
    }

    spec fn resolves(
        self,
        asked: Seq<PathModel>,
        parse: spec_fn(Seq<char>) -> PositionModel,
        present: spec_fn(PathModel) -> bool,
    ) -> bool {
        match self {
            ResolutionModel::Parse { paths, positions } => resolved_so_far(
                asked,
                paths,
                positions,
                parse,
                present,
            ),
            ResolutionModel::Probe { paths, positions, parsed } => {
                &&& resolved_so_far(asked, paths, positions, parse, present)
                &&& parsed == parse(paths[positions.len() as int]->Text_0)
            },
            ResolutionModel::Done { paths, positions } => resolved_so_far(
                asked,
                paths,
                positions,
                parse,
                present,
            ),
        }
    }
}

spec fn resolved_so_far(
    asked: Seq<PathModel>,
    paths: Seq<PathModel>,
    positions: Seq<PositionModel>,
    parse: spec_fn(Seq<char>) -> PositionModel,
    present: spec_fn(PathModel) -> bool,
) -> bool {
    &&& paths.len() == asked.len()
    &&& positions.len() <= paths.len()
    &&& forall|i: int|
        0 <= i < positions.len() ==> {
            &&& #[trigger] positions[i] == resolved(asked[i], parse, present)
            &&& paths[i] == resolved(asked[i], parse, present).path
        }
    &&& forall|i: int| positions.len() <= i < paths.len() ==> #[trigger] paths[i] == asked[i]
}

pub(crate) proof fn lemma_settle(paths: Seq<PathModel>, positions: Seq<PositionModel>)
    requires
        positions.len() <= paths.len(),
    ensures
        settle(paths, positions).wf(),
        settle(paths, positions).is_about(paths.len()),
        0 <= settle(paths, positions).open_questions() <= 2 * (paths.len() - positions.len()),
    decreases paths.len() - positions.len(),
{
    if positions.len() < paths.len() && paths[positions.len() as int] is Encoded {
        lemma_settle(
            paths,
            positions.push(without_position(paths[positions.len() as int])),
        );
    }
}

/// An answer brings the end of the resolution nearer, if it is one to the question that is open.
pub(crate) proof fn lemma_answer(resolution: ResolutionModel, event: EventModel, n: nat)
    requires
        resolution.wf(),
        resolution.is_about(n),
    ensures
        resolution.next(event).wf(),
        resolution.next(event).is_about(n),
        0 <= resolution.next(event).open_questions() <= 2 * n,
        resolution.next(event) != resolution ==> resolution.next(event).open_questions()
            < resolution.open_questions(),
{
    match (resolution, event) {
        (ResolutionModel::Parse { paths, positions }, EventModel::Parsed(_)) => {
            lemma_settle(
                paths,
                positions.push(without_position(paths[positions.len() as int])),
            );
        },
        (ResolutionModel::Probe { paths, positions, parsed }, EventModel::Probed(_)) => {
            lemma_settle(
                paths,
                positions.push(without_position(paths[positions.len() as int])),
            );
            lemma_settle(
                paths.update(positions.len() as int, parsed.path),
                positions.push(parsed),
            );
        },
        _ => {},
    }
}

proof fn lemma_settle_resolves(
    asked: Seq<PathModel>,
    paths: Seq<PathModel>,
    positions: Seq<PositionModel>,
    parse: spec_fn(Seq<char>) -> PositionModel,
    present: spec_fn(PathModel) -> bool,
)
    requires
        resolved_so_far(asked, paths, positions, parse, present),
    ensures
        settle(paths, positions).resolves(asked, parse, present),
    decreases paths.len() - positions.len(),
{
    if positions.len() < paths.len() && paths[positions.len() as int] is Encoded {
        let path = paths[positions.len() as int];
        assert(without_position(path) == resolved(asked[positions.len() as int], parse, present));
        lemma_settle_resolves(
            asked,
            paths,
            positions.push(without_position(path)),
            parse,
            present,
        );
    }
}

proof fn lemma_true_answer(
    resolution: ResolutionModel,
    asked: Seq<PathModel>,
    parse: spec_fn(Seq<char>) -> PositionModel,
    present: spec_fn(PathModel) -> bool,
)
    requires
        resolution.wf(),
        resolution.resolves(asked, parse, present),
    ensures
        resolution.next(resolution.answer(parse, present)).wf(),
        resolution.next(resolution.answer(parse, present)).resolves(asked, parse, present),
        resolution is Done ==> resolution.next(resolution.answer(parse, present)) == resolution,
        resolution !is Done ==> 0 <= resolution.next(
            resolution.answer(parse, present),
        ).open_questions() < resolution.open_questions(),
{
    lemma_answer(resolution, resolution.answer(parse, present), asked.len());
    match resolution {
        ResolutionModel::Parse { paths, positions } => {
            let path = paths[positions.len() as int];
            if parse(path->Text_0).row is None {
                lemma_settle(paths, positions.push(without_position(path)));
                lemma_settle_resolves(
                    asked,
                    paths,
                    positions.push(without_position(path)),
                    parse,
                    present,
                );
            }
        },
        ResolutionModel::Probe { paths, positions, parsed } => {
            let path = paths[positions.len() as int];
            if present(path) {
                lemma_settle(paths, positions.push(without_position(path)));
                lemma_settle_resolves(
                    asked,
                    paths,
                    positions.push(without_position(path)),
                    parse,
                    present,
                );
            } else {
                lemma_settle(
                    paths.update(positions.len() as int, parsed.path),
                    positions.push(parsed),
                );
                lemma_settle_resolves(
                    asked,
                    paths.update(positions.len() as int, parsed.path),
                    positions.push(parsed),
                    parse,
                    present,
                );
            }
        },
        ResolutionModel::Done { .. } => {},
    }
}

proof fn lemma_after(
    paths: Seq<PathModel>,
    parse: spec_fn(Seq<char>) -> PositionModel,
    present: spec_fn(PathModel) -> bool,
    n: nat,
)
    ensures
        settle(paths, Seq::empty()).after(parse, present, n).wf(),
        settle(paths, Seq::empty()).after(parse, present, n).resolves(paths, parse, present),
        settle(paths, Seq::empty()).after(parse, present, n) is Done || 0 <= settle(
            paths,
            Seq::empty(),
        ).after(parse, present, n).open_questions() <= 2 * paths.len() - n,
    decreases n,
{
    if n == 0 {
        lemma_settle(paths, Seq::empty());
        lemma_settle_resolves(paths, paths, Seq::empty(), parse, present);
    } else {
        lemma_after(paths, parse, present, (n - 1) as nat);
        lemma_true_answer(
            settle(paths, Seq::empty()).after(parse, present, (n - 1) as nat),
            paths,
            parse,
            present,
        );
    }
}

/// Two true answers for each path are enough to resolve all paths, and each path is resolved by
/// itself: to the path and position that it reads as, if that has a row and nothing exists under
/// the path as it is; and to the path as it is otherwise.
pub proof fn law_each_path_is_resolved(
    paths: Seq<PathModel>,
    parse: spec_fn(Seq<char>) -> PositionModel,
    present: spec_fn(PathModel) -> bool,
    n: nat,
)
    requires
        n >= 2 * paths.len(),
    ensures
        settle(paths, Seq::empty()).after(parse, present, n) == (ResolutionModel::Done {
            paths: paths.map_values(|path: PathModel| resolved(path, parse, present).path),
            positions: paths.map_values(|path: PathModel| resolved(path, parse, present)),
        }),
{
    lemma_after(paths, parse, present, n);
    let last = settle(paths, Seq::empty()).after(parse, present, n);
    assert(last is Done);
    assert(last->Done_positions =~= paths.map_values(
        |path: PathModel| resolved(path, parse, present),
    ));
    assert forall|i: int| 0 <= i < paths.len() implies last->Done_paths[i] == resolved(
        paths[i],
        parse,
        present,
    ).path by {
        assert(last->Done_positions[i] == resolved(paths[i], parse, present));
    }
    assert(last->Done_paths =~= paths.map_values(
        |path: PathModel| resolved(path, parse, present).path,
    ));
}

/// Paths that all exist as they are stay as they are, whatever they read as.
pub proof fn law_existing_paths_stay(
    paths: Seq<PathModel>,
    parse: spec_fn(Seq<char>) -> PositionModel,
    present: spec_fn(PathModel) -> bool,
    n: nat,
)
    requires
        n >= 2 * paths.len(),
        forall|i: int| 0 <= i < paths.len() ==> present(#[trigger] paths[i]),
    ensures
        settle(paths, Seq::empty()).after(parse, present, n) == (ResolutionModel::Done {
            paths,
            positions: paths.map_values(|path: PathModel| without_position(path)),
        }),
{
    law_each_path_is_resolved(paths, parse, present, n);
    assert(paths.map_values(|path: PathModel| resolved(path, parse, present).path) =~= paths);
    assert(paths.map_values(|path: PathModel| resolved(path, parse, present))
        =~= paths.map_values(|path: PathModel| without_position(path)));
}

impl ResolutionModel {
    /// The paths, resolved as far as they are.
    pub open spec fn paths(self) -> Seq<PathModel> {
        match self {
            ResolutionModel::Parse { paths, .. } => paths,
            ResolutionModel::Probe { paths, .. } => paths,
            ResolutionModel::Done { paths, .. } => paths,
        }
    }

    /// The positions that are known so far.
    pub open spec fn positions(self) -> Seq<PositionModel> {
        match self {
            ResolutionModel::Parse { positions, .. } => positions,
            ResolutionModel::Probe { positions, .. } => positions,
            ResolutionModel::Done { positions, .. } => positions,
        }
    }
}

/// The next question is about the first path that is text. The paths before it have no position,
/// and nothing else changes; if no path is left that is text, the paths are resolved.
pub proof fn law_only_text_is_asked_about(paths: Seq<PathModel>, positions: Seq<PositionModel>)
    requires
        positions.len() <= paths.len(),
    ensures
        ({
            let settled = settle(paths, positions);
            let known = settled.positions();
            &&& settled.paths() == paths
            &&& positions.len() <= known.len() <= paths.len()
            &&& forall|i: int|
                0 <= i < known.len() ==> #[trigger] known[i] == (if i < positions.len() {
                    positions[i]
                } else {
                    PositionModel { path: paths[i], row: None, column: None }
                })
            &&& forall|i: int|
                positions.len() <= i < known.len() ==> (#[trigger] paths[i]) is Encoded
            &&& known.len() < paths.len() ==> settled is Parse && paths[known.len() as int] is Text
            &&& known.len() == paths.len() ==> settled is Done
        }),
    decreases paths.len() - positions.len(),
{
    if positions.len() < paths.len() && paths[positions.len() as int] is Encoded {
        law_only_text_is_asked_about(
            paths,
            positions.push(without_position(paths[positions.len() as int])),
        );
    }
}

/// A path that reads as one with a row is looked for as it is. Only if it is not there, it gives
/// way to the path and the position that it reads as; a path that is there, or that has no row,
/// stays as it is and has no position. Either way the other paths stay, and so do the positions
/// that were known before. Nothing else is an answer.
pub proof fn law_an_answer_settles_one_path(resolution: ResolutionModel, event: EventModel)
    ensures
        ({
            let paths = resolution.paths();
            let known = resolution.positions();
            let k = known.len() as int;
            let as_it_is = PositionModel { path: paths[k], row: None, column: None };
            match (resolution, event) {
                (ResolutionModel::Parse { .. }, EventModel::Parsed(parsed)) => {
                    &&& parsed.row is Some ==> resolution.next(event) == (ResolutionModel::Probe {
                        paths,
                        positions: known,
                        parsed,
                    })
                    &&& parsed.row is None ==> resolution.next(event) == settle(
                        paths,
                        known.push(as_it_is),
                    )
                },
                (ResolutionModel::Probe { parsed, .. }, EventModel::Probed(there)) => {
                    &&& there ==> resolution.next(event) == settle(paths, known.push(as_it_is))
                    &&& !there ==> resolution.next(event) == settle(
                        paths.update(k, parsed.path),
                        known.push(parsed),
                    )
                },
                _ => resolution.next(event) == resolution,
            }
        }),
{
}

/// Once every question is answered truly, a path is what it reads as exactly if that has a row and
/// nothing exists under the path as it is. Its position then is the one that it reads as, and it
/// has none otherwise. The paths stay in their order.
pub proof fn law_what_each_path_resolves_to(
    paths: Seq<PathModel>,
    parse: spec_fn(Seq<char>) -> PositionModel,
    present: spec_fn(PathModel) -> bool,
    n: nat,
    i: int,
)
    requires
        n >= 2 * paths.len(),
        0 <= i < paths.len(),
    ensures
        ({
            let last = settle(paths, Seq::empty()).after(parse, present, n);
            &&& last is Done
            &&& last.paths().len() == paths.len()
            &&& last.positions().len() == paths.len()
            &&& match paths[i] {
                PathModel::Text(text) if parse(text).row is Some && !present(paths[i]) => {
                    &&& last.paths()[i] == parse(text).path
                    &&& last.positions()[i] == parse(text)
                },
                _ => {
                    &&& last.paths()[i] == paths[i]
                    &&& last.positions()[i].path == paths[i]
                    &&& last.positions()[i].row is None
                    &&& last.positions()[i].column is None
                },
            }
        }),
{
    law_each_path_is_resolved(paths, parse, present, n);
}

} // verus!
