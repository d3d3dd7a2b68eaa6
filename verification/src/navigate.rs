//! Moving the cursor of each opened item to the position that was asked for.

use crate::paths::{PathWithPosition, PositionModel};
use vstd::prelude::*;

verus! {

/// Where the cursor of an item goes. Rows and columns count from zero.
#[derive(Clone, Copy, Debug, PartialEq, Eq, Structural)]
pub struct Navigation {
    pub item: u64,
    pub row: u32,
    pub column: u32,
}

/// Turns a number that counts from one into one that counts from zero. Zero stays.
pub open spec fn from_one(number: u32) -> u32 {
    if number == 0 {
        0
    } else {
        (number - 1) as u32
    }
}

/// Where the cursor goes in an item that was opened for a position: nowhere, unless there is an
/// item and a row. Without a column, it goes to the first.
pub open spec fn target(item: Option<u64>, position: PositionModel) -> Option<Navigation> {
    match (item, position.row) {
        (Some(item), Some(row)) => Some(
            Navigation {
                item,
                row: from_one(row),
                column: match position.column {
                    Some(column) => from_one(column),
                    None => 0,
                },
            },
        ),
        _ => None,
    }
}

/// The targets among the first `n` items and positions, in their order.
pub open spec fn first_targets(
    items: Seq<Option<u64>>,
    positions: Seq<PositionModel>,
    n: nat,
) -> Seq<Navigation>
    decreases n,
{
    if n == 0 {
        Seq::empty()
    } else {
        let before = first_targets(items, positions, (n - 1) as nat);
        match target(items[n - 1], positions[n - 1]) {
            Some(navigation) => before.push(navigation),
            None => before,
        }
    }
}

/// The targets of all items that have a position.
pub open spec fn targets(items: Seq<Option<u64>>, positions: Seq<PositionModel>) -> Seq<
    Navigation,
> {
    first_targets(
        items,
        positions,
        if items.len() <= positions.len() {
            items.len()
        } else {
            positions.len()
        },
    )
}

/// Where the cursors go in the items that were opened for the paths at `positions`. The `i`th item
/// belongs to the `i`th position; an item or a position without a counterpart is left out.
pub fn navigate_to_positions(
    items: &Vec<Option<u64>>,
    positions: &Vec<PathWithPosition>,
) -> (navigations: Vec<Navigation>)
    ensures
        navigations@ == targets(items@, positions.deep_view()),
{
    let mut navigations: Vec<Navigation> = Vec::new();
    let mut i: usize = 0;
    while i < items.len() && i < positions.len()
        invariant
            i <= items@.len(),
            i <= positions@.len(),
            navigations@ == first_targets(items@, positions.deep_view(), i as nat),
        decreases items@.len() - i,
    {
        assert(positions.deep_view()[i as int] == positions@[i as int].deep_view());
        if let Some(item) = items[i] {
            if let Some(row) = positions[i].row {
                let column: u32 = match positions[i].column {
                    Some(column) => column,
                    None => 0,
                };
                navigations.push(
                    Navigation {
                        item,
                        row: row.saturating_sub(1),
                        column: column.saturating_sub(1),
                    },
                );
            }
        }
        i += 1;
    }
    navigations
}

/// Every cursor that moves is that of an item which was opened for a position with a row, and each
/// such item has its cursor moved.
pub proof fn law_cursors_go_to_the_rows_asked_for(
    items: Seq<Option<u64>>,
    positions: Seq<PositionModel>,
    navigation: Navigation,
)
    ensures
        targets(items, positions).contains(navigation) <==> exists|i: int|
            0 <= i < items.len() && i < positions.len() && target(
                #[trigger] items[i],
                positions[i],
            ) == Some(navigation),
{
    let n = if items.len() <= positions.len() {
        items.len()
    } else {
        positions.len()
    };
    lemma_first_targets(items, positions, n, navigation);
    if exists|i: int|
        0 <= i < items.len() && i < positions.len() && target(#[trigger] items[i], positions[i])
            == Some(navigation) {
        let i = choose|i: int|
            0 <= i < items.len() && i < positions.len() && target(#[trigger] items[i], positions[i])
                == Some(navigation);
        assert(0 <= i < n);
    }
}

proof fn lemma_first_targets(
    items: Seq<Option<u64>>,
    positions: Seq<PositionModel>,
    n: nat,
    navigation: Navigation,
)
    requires
        n <= items.len(),
        n <= positions.len(),
    ensures
        first_targets(items, positions, n).contains(navigation) <==> exists|i: int|
            0 <= i < n && target(#[trigger] items[i], positions[i]) == Some(navigation),
    decreases n,
{
    if n > 0 {
        let before = first_targets(items, positions, (n - 1) as nat);
        let after = first_targets(items, positions, n);
        lemma_first_targets(items, positions, (n - 1) as nat, navigation);
        if before.contains(navigation) {
            let j = choose|j: int| 0 <= j < before.len() && before[j] == navigation;
            assert(after[j] == navigation);
        }
        if target(items[n - 1], positions[n - 1]) == Some(navigation) {
            assert(after[after.len() - 1] == navigation);
        }
        if after.contains(navigation) && !before.contains(navigation) {
            let j = choose|j: int| 0 <= j < after.len() && after[j] == navigation;
            if j < before.len() {
                assert(before[j] == navigation);
            }
            assert(target(items[n - 1], positions[n - 1]) == Some(navigation));
        }
    }
}

/// In every item that was opened for a position with a row, the cursor goes to the row and the
/// column before those of the position, which count from one; a row or a column that is zero or
/// left out stands for the first.
pub proof fn law_cursors_go_one_before_the_numbers(
    items: Seq<Option<u64>>,
    positions: Seq<PositionModel>,
    i: int,
    item: u64,
    row: u32,
)
    requires
        0 <= i < items.len(),
        i < positions.len(),
        items[i] == Some(item),
        positions[i].row == Some(row),
    ensures
        exists|n: int|
            0 <= n < targets(items, positions).len() && ({
                let moved = #[trigger] targets(items, positions)[n];
                &&& moved.item == item
                &&& row >= 1 ==> moved.row + 1 == row
                &&& row == 0 ==> moved.row == 0
                &&& positions[i].column matches Some(column) ==> {
                    &&& column >= 1 ==> moved.column + 1 == column
                    &&& column == 0 ==> moved.column == 0
                }
                &&& positions[i].column is None ==> moved.column == 0
            }),
{
    let moved = target(items[i], positions[i])->0;
    law_cursors_go_to_the_rows_asked_for(items, positions, moved);
    let n = choose|n: int|
        0 <= n < targets(items, positions).len() && targets(items, positions)[n] == moved;
    assert(targets(items, positions)[n] == moved);
}

/// A cursor moves only in an item that was opened for a position with a row, and only to the row
/// and the column before those of that position.
pub proof fn law_cursors_go_nowhere_else(
    items: Seq<Option<u64>>,
    positions: Seq<PositionModel>,
    moved: Navigation,
)
    requires
        targets(items, positions).contains(moved),
    ensures
        exists|i: int|
            0 <= i < items.len() && i < positions.len() && #[trigger] items[i] == Some(moved.item)
                && (match positions[i].row {
                Some(row) => moved.row + 1 == row || moved.row == 0 && row == 0,
                None => false,
            }) && (match positions[i].column {
                Some(column) => moved.column + 1 == column || moved.column == 0 && column == 0,
                None => moved.column == 0,
            }),
{
    law_cursors_go_to_the_rows_asked_for(items, positions, moved);
    let i = choose|i: int|
        0 <= i < items.len() && i < positions.len() && target(#[trigger] items[i], positions[i])
            == Some(moved);
    assert(items[i] == Some(moved.item));
}

/// The items and positions are gone through one by one, in their order: what is at the front of the
/// two lists has its cursors moved first, and an item or a position without a counterpart moves
/// none.
pub proof fn law_cursors_move_in_order(
    items: Seq<Option<u64>>,
    positions: Seq<PositionModel>,
    more_items: Seq<Option<u64>>,
    more_positions: Seq<PositionModel>,
)
    requires
        items.len() == positions.len(),
    ensures
        targets(items + more_items, positions + more_positions) == targets(items, positions)
            + targets(more_items, more_positions),
        targets(more_items, Seq::empty()) == Seq::<Navigation>::empty(),
        targets(Seq::empty(), more_positions) == Seq::<Navigation>::empty(),
{
    let n = if more_items.len() <= more_positions.len() {
        more_items.len()
    } else {
        more_positions.len()
    };
    lemma_first_targets_of_both(items, positions, more_items, more_positions, n);
}

/// A single item and a single position move at most one cursor: that of the item, and only if the
/// position has a row.
pub proof fn law_one_item_moves_one_cursor(item: Option<u64>, position: PositionModel)
    ensures
        item is Some && position.row is Some ==> targets(seq![item], seq![position]).len() == 1
            && targets(seq![item], seq![position])[0].item == item->0,
        item is None || position.row is None ==> targets(seq![item], seq![position]).len() == 0,
{
    reveal_with_fuel(first_targets, 2);
    assert(seq![item][0] == item);
    assert(seq![position][0] == position);
}

proof fn lemma_first_targets_of_one(
    items: Seq<Option<u64>>,
    positions: Seq<PositionModel>,
    more_items: Seq<Option<u64>>,
    more_positions: Seq<PositionModel>,
    n: nat,
)
    requires
        n <= items.len(),
        n <= positions.len(),
    ensures
        first_targets(items + more_items, positions + more_positions, n) == first_targets(
            items,
            positions,
            n,
        ),
    decreases n,
{
    if n > 0 {
        lemma_first_targets_of_one(
            items,
            positions,
            more_items,
            more_positions,
            (n - 1) as nat,
        );
    }
}

proof fn lemma_first_targets_of_both(
    items: Seq<Option<u64>>,
    positions: Seq<PositionModel>,
    more_items: Seq<Option<u64>>,
    more_positions: Seq<PositionModel>,
    n: nat,
)
    requires
        items.len() == positions.len(),
        n <= more_items.len(),
        n <= more_positions.len(),
    ensures
        first_targets(items + more_items, positions + more_positions, items.len() + n)
            == first_targets(items, positions, items.len()) + first_targets(
            more_items,
            more_positions,
            n,
        ),
    decreases n,
{
    if n == 0 {
        lemma_first_targets_of_one(items, positions, more_items, more_positions, items.len());
        assert(first_targets(items, positions, items.len()) + first_targets(
            more_items,
            more_positions,
            0,
        ) =~= first_targets(items, positions, items.len()));
    } else {
        lemma_first_targets_of_both(
            items,
            positions,
            more_items,
            more_positions,
            (n - 1) as nat,
        );
        let at = items.len() + n - 1;
        assert((items + more_items)[at] == more_items[n - 1]);
        assert((positions + more_positions)[at] == more_positions[n - 1]);
        assert(first_targets(items + more_items, positions + more_positions, items.len() + n)
            =~= first_targets(items, positions, items.len()) + first_targets(
            more_items,
            more_positions,
            n,
        ));
    }
}

} // verus!
