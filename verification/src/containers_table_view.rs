//! The rows of the container table: one row per container, ordered by id.

use crate::container::{Container, ContainerView, State, StateView};
use crate::text::{
    lemma_bytes_before_asymmetric, lemma_bytes_before_total, lemma_bytes_before_transitive,
    text_before, text_less,
};
use std::cmp::Ordering;
use vstd::prelude::*;
use vstd::utf8::encode_utf8;

verus! {

/// The columns of the container table.
#[derive(Copy, Clone, PartialEq, Eq, Hash, Debug)]
pub enum ContainerColumn {
    ID,
    Name,
    Image,
    State,
}

/// One row of the container table.
#[derive(Clone, Eq, Hash, PartialEq, Debug)]
pub struct ContainersTable {
    pub id: String,
    pub name: String,
    pub image: String,
    pub state: String,
}

pub struct ContainersTableView {
    pub id: Seq<char>,
    pub name: Seq<char>,
    pub image: Seq<char>,
    pub state: Seq<char>,
}

impl View for ContainersTable {
    type V = ContainersTableView;

    open spec fn view(&self) -> ContainersTableView {
        ContainersTableView { id: self.id@, name: self.name@, image: self.image@, state: self.state@ }
    }
}

impl ContainersTableView {
    /// The text that the row shows in a column.
    pub open spec fn cell(self, column: ContainerColumn) -> Seq<char> {
        match column {
            ContainerColumn::ID => self.id,
            ContainerColumn::Name => self.name,
            ContainerColumn::Image => self.image,
            ContainerColumn::State => self.state,
        }
    }
}

impl ContainersTable {
    /// The text that the row shows in a column.
    pub fn to_column(&self, column: ContainerColumn) -> (text: String)
        ensures
            text@ == self@.cell(column),
    {
        match column {
            ContainerColumn::ID => self.id.clone(),
            ContainerColumn::Name => self.name.clone(),
            ContainerColumn::Image => self.image.clone(),
            ContainerColumn::State => self.state.clone(),
        }
    }

    /// Orders two rows by the text they show in a column, in the order of
    /// `str`.
    pub fn cmp(&self, other: &Self, column: ContainerColumn) -> (order: Ordering)
        ensures
            order == Ordering::Less <==> text_before(self@.cell(column), other@.cell(column)),
            order == Ordering::Greater <==> text_before(other@.cell(column), self@.cell(column)),
    {
        let (mine, theirs) = match column {
            ContainerColumn::ID => (self.id.as_str(), other.id.as_str()),
            ContainerColumn::Name => (self.name.as_str(), other.name.as_str()),
            ContainerColumn::Image => (self.image.as_str(), other.image.as_str()),
            ContainerColumn::State => (self.state.as_str(), other.state.as_str()),
        };
        if text_less(mine, theirs) {
            proof {
                lemma_bytes_before_asymmetric(encode_utf8(mine@), encode_utf8(theirs@));
            }
            Ordering::Less
        } else if text_less(theirs, mine) {
            Ordering::Greater
        } else {
            Ordering::Equal
        }
    }
}

/// The status that the table shows for a reported state.
pub open spec fn status_text(state: Option<StateView>) -> Seq<char> {
    match state {
        Some(state) => state.status,
        None => "Unknown?"@,
    }
}

/// The row that the table shows for a container. A container without an
/// image shows `N/A` in its place.
pub open spec fn row_of(container: ContainerView) -> ContainersTableView {
    ContainersTableView {
        id: container.id,
        name: container.name,
        image: match container.image {
            Some(image) => image.name,
            None => "N/A"@,
        },
        state: status_text(container.state),
    }
}

/// The rows of a list of containers, in the order of the list.
pub open spec fn rows_of(containers: Seq<ContainerView>) -> Seq<ContainersTableView> {
    Seq::new(containers.len(), |i: int| row_of(containers[i]))
}

/// The views of a list of rows.
pub open spec fn rows_view(rows: Seq<ContainersTable>) -> Seq<ContainersTableView> {
    Seq::new(rows.len(), |i: int| rows[i]@)
}

/// The rows with `row` put behind the last row whose id does not come after
/// its own.
pub open spec fn insert_row(sorted: Seq<ContainersTableView>, row: ContainersTableView) -> Seq<
    ContainersTableView,
>
    decreases sorted.len(),
{
    if sorted.len() > 0 && text_before(row.id, sorted.last().id) {
        insert_row(sorted.drop_last(), row).push(sorted.last())
    } else {
        sorted.push(row)
    }
}

/// The rows ordered by id; rows with the same id keep their order.
pub open spec fn sort_rows(rows: Seq<ContainersTableView>) -> Seq<ContainersTableView>
    decreases rows.len(),
{
    if rows.len() == 0 {
        rows
    } else {
        insert_row(sort_rows(rows.drop_last()), rows.last())
    }
}

/// Whether no row comes before a row with a smaller id.
pub open spec fn ordered_by_id(rows: Seq<ContainersTableView>) -> bool {
    forall|i: int, j: int|
        0 <= i < j < rows.len() ==> !text_before(#[trigger] rows[j].id, #[trigger] rows[i].id)
}

/// The status that the table shows for a reported state.
pub fn state_to_string(state: &Option<State>) -> (status: String)
    ensures
        status@ == status_text(
            match state {
                Some(state) => Some(state@),
                None => None,
            },
        ),
{
    if let Some(state) = state {
        return state.status.clone();
    }
    "Unknown?".to_owned()
}

/// Where `row` goes among the ordered rows: behind the last row whose id does
/// not come after its own.
fn insertion_point(sorted: &Vec<ContainersTable>, row: &ContainersTable) -> (at: usize)
    ensures
        at <= sorted.len(),
        insert_row(rows_view(sorted@), row@) == rows_view(sorted@).insert(at as int, row@),
{
    let ghost all = rows_view(sorted@);
    let mut at: usize = sorted.len();
    assert(all.take(at as int) =~= all);
    while at > 0 && text_less(row.id.as_str(), sorted[at - 1].id.as_str())
        invariant
            at <= sorted.len(),
            all == rows_view(sorted@),
            insert_row(all, row@) == insert_row(all.take(at as int), row@) + all.skip(at as int),
        decreases at,
    {
        let ghost front = all.take(at as int);
        assert(front.drop_last() =~= all.take(at - 1));
        assert(insert_row(all.take(at - 1), row@).push(all[at - 1]) + all.skip(at as int)
            =~= insert_row(all.take(at - 1), row@) + all.skip(at - 1));
        at -= 1;
    }
    at
}

/// The rows of the container table for the containers that the control plane
/// reports: one row per container, ordered by id.
pub fn items_to_columns(req_items: Vec<Container>) -> (out: Vec<ContainersTable>)
    ensures
        rows_view(out@) == sort_rows(rows_of(crate::container::containers_view(req_items@))),
        out.len() == req_items.len(),
{
    let ghost rows = rows_of(crate::container::containers_view(req_items@));
    let mut out: Vec<ContainersTable> = Vec::new();
    let mut i: usize = 0;
    while i < req_items.len()
        invariant
            i <= req_items.len(),
            out.len() == i,
            rows == rows_of(crate::container::containers_view(req_items@)),
            rows_view(out@) == sort_rows(rows.take(i as int)),
        decreases req_items.len() - i,
    {
        let c = &req_items[i];
        let image = match &c.image {
            Some(image) => image.name.clone(),
            None => "N/A".to_owned(),
        };
        let row = ContainersTable {
            id: c.id.clone(),
            name: c.name.clone(),
            image,
            state: state_to_string(&c.state),
        };
        let at = insertion_point(&out, &row);
        out.insert(at, row);
        assert(rows.take(i + 1).drop_last() =~= rows.take(i as int));
        i += 1;
    }
    assert(rows.take(i as int) =~= rows);
    out
}

/// A text that comes before another comes before every text that the other
/// does not come after.
proof fn lemma_before_carries_on(a: Seq<char>, b: Seq<char>, c: Seq<char>)
    requires
        text_before(a, b),
        !text_before(c, b),
    ensures
        text_before(a, c),
{
    if text_before(b, c) {
        lemma_bytes_before_transitive(encode_utf8(a), encode_utf8(b), encode_utf8(c));
    } else {
        lemma_bytes_before_total(encode_utf8(b), encode_utf8(c));
    }
}

/// Putting a row in adds that row and nothing else, and keeps ordered rows
/// ordered.
pub proof fn lemma_insert_row(sorted: Seq<ContainersTableView>, row: ContainersTableView)
    ensures
        insert_row(sorted, row).len() == sorted.len() + 1,
        insert_row(sorted, row).to_multiset() == sorted.to_multiset().insert(row),
        forall|i: int|
            0 <= i < insert_row(sorted, row).len() ==> (#[trigger] insert_row(sorted, row)[i])
                == row || sorted.contains(insert_row(sorted, row)[i]),
        ordered_by_id(sorted) ==> ordered_by_id(insert_row(sorted, row)),
    decreases sorted.len(),
{
    broadcast use vstd::seq_lib::group_to_multiset_ensures;

    let placed = insert_row(sorted, row);
    if sorted.len() > 0 && text_before(row.id, sorted.last().id) {
        let front = sorted.drop_last();
        let last = sorted.last();
        lemma_insert_row(front, row);
        assert(sorted =~= front.push(last));
        if ordered_by_id(sorted) {
            assert(ordered_by_id(front));
            lemma_bytes_before_asymmetric(encode_utf8(row.id), encode_utf8(last.id));
        }
    } else if ordered_by_id(sorted) {
        assert forall|i: int, j: int| 0 <= i < j < placed.len() implies !text_before(
            #[trigger] placed[j].id,
            #[trigger] placed[i].id,
        ) by {
            if j == sorted.len() && text_before(row.id, sorted[i].id) {
                lemma_before_carries_on(row.id, sorted[i].id, sorted.last().id);
            }
        }
    }
}

/// The table holds the rows it was given, each once, and no row stands
/// before a row with a smaller id.
pub proof fn law_rows_sorted(rows: Seq<ContainersTableView>)
    ensures
        sort_rows(rows).len() == rows.len(),
        sort_rows(rows).to_multiset() == rows.to_multiset(),
        ordered_by_id(sort_rows(rows)),
    decreases rows.len(),
{
    broadcast use vstd::seq_lib::group_to_multiset_ensures;

    if rows.len() > 0 {
        law_rows_sorted(rows.drop_last());
        lemma_insert_row(sort_rows(rows.drop_last()), rows.last());
        assert(rows =~= rows.drop_last().push(rows.last()));
    }
}

} // verus!
