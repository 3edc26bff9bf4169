//! The columns of a masonry layout while pages are put into them.

use crate::coordinate::Coordinate;
use crate::strip_geometry::{is_first_smallest, shortest_column};
use crate::strip_mode::{clamp_columns, columns};
use vstd::prelude::*;

verus! {

/// The columns of a masonry layout.
#[verifier::ext_equal]
pub struct ColumnState {
    /// Where the next page of each column begins.
    pub ends: Seq<Coordinate>,
    /// Where the last page of each column begins; its start if it is empty.
    pub lasts: Seq<Coordinate>,
}

impl ColumnState {
    pub open spec fn wf(self) -> bool {
        &&& self.ends.len() == self.lasts.len()
        &&& self.ends.len() > 0
        &&& forall|i: int, j: int|
            #![trigger self.lasts[i], self.ends[j]]
            0 <= i < self.lasts.len() && 0 <= j < self.ends.len() ==> self.lasts[i] <= self.ends[j]
    }

    /// The columns after a page was put into one of them.
    pub open spec fn placed(self, column: int, end: Coordinate) -> Self {
        ColumnState {
            ends: self.ends.update(column, end),
            lasts: self.lasts.update(column, self.ends[column]),
        }
    }
}

/// The last of the ends, but not before `top`.
pub open spec fn is_last_end(ends: Seq<Coordinate>, top: Coordinate, end: Coordinate) -> bool {
    &&& end >= top
    &&& end == top || exists|i: int| 0 <= i < ends.len() && ends[i] == end
    &&& forall|i: int| 0 <= i < ends.len() ==> ends[i] <= end
}

/// The columns of a masonry layout.
pub struct MasonryColumns {
    ends: Vec<Coordinate>,
    lasts: Vec<Coordinate>,
}

impl View for MasonryColumns {
    type V = ColumnState;

    closed spec fn view(&self) -> ColumnState {
        ColumnState { ends: self.ends@, lasts: self.lasts@ }
    }
}

impl MasonryColumns {
    /// Empty columns that begin at `top`.
    pub fn new(items_per_row: usize, top: Coordinate) -> (result: Self)
        ensures
            result@.wf(),
            result@.ends == Seq::new(columns(items_per_row as int) as nat, |i: int| top),
            result@.lasts == Seq::new(columns(items_per_row as int) as nat, |i: int| top),
    {
        let count: usize = clamp_columns(items_per_row);
        let mut ends: Vec<Coordinate> = Vec::new();
        let mut lasts: Vec<Coordinate> = Vec::new();
        let mut i: usize = 0;
        while i < count
            invariant
                i <= count,
                ends@ == Seq::new(i as nat, |k: int| top),
                lasts@ == Seq::new(i as nat, |k: int| top),
            decreases count - i,
        {
            ends.push(top);
            lasts.push(top);
            i = i + 1;
            assert(ends@ =~= Seq::new(i as nat, |k: int| top));
            assert(lasts@ =~= Seq::new(i as nat, |k: int| top));
        }
        MasonryColumns { ends, lasts }
    }

    /// The column that the next page goes to: the first of the shortest.
    pub fn next_column(&self) -> (column: usize)
        requires
            self@.wf(),
        ensures
            is_first_smallest(self@.ends, column as int),
    {
        shortest_column(&self.ends)
    }

    /// Puts a page into the column that it goes to.  `end` is where the column ends
    /// then.
    pub fn place(&mut self, column: usize, end: Coordinate)
        requires
            old(self)@.wf(),
            is_first_smallest(old(self)@.ends, column as int),
            end >= old(self)@.ends[column as int],
        ensures
            final(self)@.wf(),
            final(self)@ == old(self)@.placed(column as int, end),
    {
        let start: Coordinate = self.ends[column];
        self.lasts.set(column, start);
        self.ends.set(column, end);
    }

    /// Where the longest column ends, but not above `top`.
    pub fn content_end(&self, top: Coordinate) -> (end: Coordinate)
        ensures
            end >= top,
            end == top || exists|i: int| 0 <= i < self@.ends.len() && self@.ends[i] == end,
            forall|i: int| 0 <= i < self@.ends.len() ==> self@.ends[i] <= end,
            is_last_end(self@.ends, top, end),
    {
        let mut end: Coordinate = top;
        let mut i: usize = 0;
        while i < self.ends.len()
            invariant
                i <= self.ends@.len(),
                end >= top,
                end == top || exists|k: int| 0 <= k < i && self.ends@[k] == end,
                forall|k: int| 0 <= k < i ==> self.ends@[k] <= end,
            decreases self.ends@.len() - i,
        {
            if self.ends[i] > end {
                end = self.ends[i];
                assert(self.ends@[i as int] == end);
            }
            i = i + 1;
        }
        proof {
            if end != top {
                let k = choose|k: int| 0 <= k < i && self.ends@[k] == end;
                assert(self@.ends[k] == end);
            }
        }
        end
    }
}

/// The columns stay balanced: each is longer than the shortest one by its last page
/// at most, however many pages are put into them.
pub proof fn law_columns_stay_balanced(state: ColumnState, column: int, end: Coordinate)
    requires
        state.wf(),
        is_first_smallest(state.ends, column),
        end >= state.ends[column],
    ensures
        state.placed(column, end).wf(),
{
    let after = state.placed(column, end);
    assert forall|i: int, j: int|
        #![trigger after.lasts[i], after.ends[j]]
        0 <= i < after.lasts.len() && 0 <= j < after.ends.len() implies after.lasts[i]
        <= after.ends[j] by {
        assert(state.ends[column] <= state.ends[j]);
        assert(state.lasts[i] <= state.ends[j]);
        assert(state.lasts[i] <= state.ends[column]);
    }
}

/// A page begins where its column ended, and only its column grows.
pub proof fn law_pages_are_put_below_each_other(
    state: ColumnState,
    column: int,
    end: Coordinate,
    other: int,
)
    requires
        state.wf(),
        0 <= column < state.ends.len(),
        0 <= other < state.ends.len(),
    ensures
        state.placed(column, end).lasts[column] == state.ends[column],
        state.placed(column, end).ends[column] == end,
        other != column ==> state.placed(column, end).ends[other] == state.ends[other],
        other != column ==> state.placed(column, end).lasts[other] == state.lasts[other],
        state.placed(column, end).ends.len() == state.ends.len(),
{
}

/// No column is longer than the shortest one by more than its last page.
pub proof fn law_longest_column_exceeds_by_its_last_page(state: ColumnState, long: int, short: int)
    requires
        state.wf(),
        0 <= long < state.ends.len(),
        0 <= short < state.ends.len(),
    ensures
        state.ends[long] - state.ends[short] <= state.ends[long] - state.lasts[long],
{
    assert(state.lasts[long] <= state.ends[short]);
}

/// A page goes to the leftmost of the shortest columns, which then ends where the page
/// does; the other columns stay as they are.
pub proof fn law_pages_go_to_the_shortest_column(
    columns: &mut MasonryColumns,
    before: &MasonryColumns,
    column: usize,
    end: Coordinate,
    other: int,
)
    requires
        *before == *old(columns),
        call_ensures(MasonryColumns::next_column, (before,), column),
        call_ensures(MasonryColumns::place, (columns, column, end), ()),
        0 <= other < old(columns)@.ends.len(),
    ensures
        column < old(columns)@.ends.len(),
        old(columns)@.ends[column as int] <= old(columns)@.ends[other],
        other < column ==> old(columns)@.ends[column as int] < old(columns)@.ends[other],
        final(columns)@.ends[column as int] == end,
        other != column ==> final(columns)@.ends[other] == old(columns)@.ends[other],
        final(columns)@.ends.len() == old(columns)@.ends.len(),
{
}

/// A new layout has its columns, all beginning at the top.
pub proof fn law_new_columns_begin_at_the_top(
    wanted: usize,
    top: Coordinate,
    made: MasonryColumns,
    i: int,
)
    requires
        call_ensures(MasonryColumns::new, (wanted, top), made),
        0 <= i < made@.ends.len(),
    ensures
        2 <= made@.ends.len() <= 10,
        2 <= wanted <= 10 ==> made@.ends.len() == wanted,
        made@.ends[i] == top,
{
}

/// The content ends with the longest column, but not before the top.
pub proof fn law_content_ends_with_the_longest_column(
    columns: &MasonryColumns,
    top: Coordinate,
    end: Coordinate,
    i: int,
)
    requires
        call_ensures(MasonryColumns::content_end, (columns, top), end),
    ensures
        end >= top,
        0 <= i < columns@.ends.len() ==> columns@.ends[i] <= end,
        end > top ==> columns@.ends.contains(end),
{
    if end > top {
        let k = choose|k: int| 0 <= k < columns@.ends.len() && columns@.ends[k] == end;
        assert(columns@.ends[k] == end);
    }
}

} // verus!
