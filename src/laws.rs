//! Properties that relate several operations of the library.
use crate::flow::{after_delete, DeleteStep};
use crate::matching::name_matches;
use crate::render::{row_of, rows_of, CellView};
use crate::store::{kept, lemma_split_len, matching, updated};
use crate::task::{Color, FieldChange, Status, Task};
use vstd::prelude::*;

verus! {

/// How many rows of `rows` equal `row`.
pub open spec fn count_rows(rows: Seq<Seq<CellView>>, row: Seq<CellView>) -> nat
    decreases rows.len(),
{
    if rows.len() == 0 {
        0
    } else {
        count_rows(rows.drop_last(), row) + if rows.last() == row {
            1nat
        } else {
            0nat
        }
    }
}

proof fn lemma_no_row_with_name(rows: Seq<Task>, t: Task)
    requires
        forall|i: int| 0 <= i < rows.len() ==> (#[trigger] rows[i]).name@ != t.name@,
    ensures
        count_rows(rows_of(rows), row_of(t)) == 0,
    decreases rows.len(),
{
    if rows.len() > 0 {
        let prefix = rows.drop_last();
        assert(rows_of(rows).drop_last() =~= rows_of(prefix));
        assert(prefix.len() < rows.len());
        assert forall|i: int| 0 <= i < prefix.len() implies (#[trigger] prefix[i]).name@
            != t.name@ by {
            assert(prefix[i] == rows[i]);
        }
        lemma_no_row_with_name(prefix, t);
        let last = rows[rows.len() - 1];
        assert(rows_of(rows).last() == row_of(last));
        assert(row_of(last)[0].0 != row_of(t)[0].0);
    }
}

/// After a task is added to a table holding no task of its name, listing the
/// table shows exactly one row with that task's name, description, deadline
/// (as `DD-MM-YYYY`) and status.
pub proof fn insert_then_list_shows_one_row(rows: Seq<Task>, t: Task)
    requires
        forall|i: int| 0 <= i < rows.len() ==> (#[trigger] rows[i]).name@ != t.name@,
    ensures
        count_rows(rows_of(rows.push(t)), row_of(t)) == 1,
        row_of(t)[0].0 == t.name@,
        row_of(t)[1].0 == t.description@,
        row_of(t)[2].0 == t.deadline.text(),
        row_of(t)[3].0 == t.status.label(),
{
    lemma_no_row_with_name(rows, t);
    assert(rows_of(rows.push(t)).drop_last() =~= rows_of(rows));
}

/// A search for a fragment that no name contains finds nothing.
pub proof fn search_without_hit_is_empty(rows: Seq<Task>, fragment: Seq<char>)
    requires
        forall|i: int| 0 <= i < rows.len() ==> !name_matches((#[trigger] rows[i]).name@, fragment),
    ensures
        matching(rows, fragment) == Seq::<Task>::empty(),
    decreases rows.len(),
{
    if rows.len() > 0 {
        let prefix = rows.drop_last();
        assert forall|i: int| 0 <= i < prefix.len() implies !name_matches(
            (#[trigger] prefix[i]).name@,
            fragment,
        ) by {
            assert(prefix[i] == rows[i]);
        }
        search_without_hit_is_empty(prefix, fragment);
    }
}

/// A delete with a search's fragment removes every row that the search
/// finds, and only those: no remaining name contains the fragment.
pub proof fn delete_removes_every_search_hit(rows: Seq<Task>, fragment: Seq<char>)
    ensures
        kept(rows, fragment).len() == rows.len() - matching(rows, fragment).len(),
        forall|i: int|
            0 <= i < kept(rows, fragment).len() ==> !name_matches(
                (#[trigger] kept(rows, fragment)[i]).name@,
                fragment,
            ),
        matching(kept(rows, fragment), fragment) == Seq::<Task>::empty(),
    decreases rows.len(),
{
    lemma_split_len(rows, fragment);
    if rows.len() > 0 {
        delete_removes_every_search_hit(rows.drop_last(), fragment);
    }
    search_without_hit_is_empty(kept(rows, fragment), fragment);
}

/// An update keyed by a name leaves every row of another name as it was,
/// even where one name contains the other.
pub proof fn update_leaves_other_names(rows: Seq<Task>, name: Seq<char>, change: FieldChange)
    ensures
        updated(rows, name, change).len() == rows.len(),
        forall|i: int|
            0 <= i < rows.len() && rows[i].name@ != name ==> #[trigger] updated(
                rows,
                name,
                change,
            )[i] == rows[i],
{
}

/// Declining the delete confirmation leaves the table as it was.
pub proof fn declined_delete_keeps_rows(rows: Seq<Task>, choice: String)
    ensures
        after_delete(rows, DeleteStep::Keep(choice)) == rows,
        after_delete(rows, DeleteStep::Keep(choice)).len() == rows.len(),
{
}

/// Setting a task's status to `Complete` makes its listed row show the label
/// "Complete" in green.
pub proof fn completed_status_shows_green(rows: Seq<Task>, name: Seq<char>, i: int)
    requires
        0 <= i < rows.len(),
        rows[i].name@ == name,
    ensures
        rows_of(updated(rows, name, FieldChange::Status(Status::Complete)))[i][3] == (
            "Complete"@,
            Some(Color::Green),
            false,
        ),
{
}

} // verus!
