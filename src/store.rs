//! An in-memory task table that models the store's statements: search and
//! delete match names by case-insensitive substring, an update matches the
//! name exactly. The model agrees with a database `ILIKE '%fragment%'` only
//! for fragments without `%`, `_` or `\` (which `ILIKE` reads as wildcards
//! or escapes) and only as far as the database's case folding agrees with
//! `str::to_lowercase`.
use crate::matching::{matches_fragment, name_matches};
use crate::task::{FieldChange, Task};
use vstd::prelude::*;

verus! {

/// The rows whose names contain `fragment`, ignoring case, in table order.
pub open spec fn matching(rows: Seq<Task>, fragment: Seq<char>) -> Seq<Task>
    decreases rows.len(),
{
    if rows.len() == 0 {
        Seq::empty()
    } else {
        let rest = matching(rows.drop_last(), fragment);
        if name_matches(rows.last().name@, fragment) {
            rest.push(rows.last())
        } else {
            rest
        }
    }
}

/// The rows whose names do not contain `fragment`, ignoring case, in table order.
pub open spec fn kept(rows: Seq<Task>, fragment: Seq<char>) -> Seq<Task>
    decreases rows.len(),
{
    if rows.len() == 0 {
        Seq::empty()
    } else {
        let rest = kept(rows.drop_last(), fragment);
        if name_matches(rows.last().name@, fragment) {
            rest
        } else {
            rest.push(rows.last())
        }
    }
}

/// Every row named exactly `name` gets `change`; the others stay as they are.
pub open spec fn updated(rows: Seq<Task>, name: Seq<char>, change: FieldChange) -> Seq<Task> {
    Seq::new(
        rows.len(),
        |i: int|
            if rows[i].name@ == name {
                change.apply(rows[i])
            } else {
                rows[i]
            },
    )
}

pub open spec fn all_wf(rows: Seq<Task>) -> bool {
    forall|i: int| 0 <= i < rows.len() ==> (#[trigger] rows[i]).wf()
}

/// Each row is either a search hit or kept by a delete with the same fragment.
pub proof fn lemma_split_len(rows: Seq<Task>, fragment: Seq<char>)
    ensures
        matching(rows, fragment).len() + kept(rows, fragment).len() == rows.len(),
    decreases rows.len(),
{
    if rows.len() > 0 {
        lemma_split_len(rows.drop_last(), fragment);
    }
}

proof fn lemma_kept_wf(rows: Seq<Task>, fragment: Seq<char>)
    requires
        all_wf(rows),
    ensures
        all_wf(kept(rows, fragment)),
    decreases rows.len(),
{
    if rows.len() > 0 {
        lemma_kept_wf(rows.drop_last(), fragment);
    }
}

/// Whether two strings hold the same characters.
pub fn same_text(a: &str, b: &str) -> (r: bool)
    ensures
        r == (a@ == b@),
{
    let n = a.unicode_len();
    if n != b.unicode_len() {
        return false;
    }
    let mut i: usize = 0;
    while i < n
        invariant
            n == a@.len(),
            n == b@.len(),
            i <= n,
            forall|k: int| 0 <= k < i ==> a@[k] == b@[k],
        decreases n - i,
    {
        if a.get_char(i) != b.get_char(i) {
            return false;
        }
        i = i + 1;
    }
    assert(a@ =~= b@);
    true
}

/// A table of tasks, kept in insertion order.
pub struct TaskStore {
    rows: Vec<Task>,
}

impl View for TaskStore {
    type V = Seq<Task>;

    closed spec fn view(&self) -> Seq<Task> {
        self.rows@
    }
}

impl TaskStore {
    /// Every stored deadline is an existing day.
    pub open spec fn wf(&self) -> bool {
        all_wf(self@)
    }

    /// An empty table.
    pub fn new() -> (r: TaskStore)
        ensures
            r@ == Seq::<Task>::empty(),
            r.wf(),
    {
        TaskStore { rows: Vec::new() }
    }

    /// The number of rows.
    pub fn len(&self) -> (r: usize)
        ensures
            r == self@.len(),
    {
        self.rows.len()
    }

    /// Appends one row.
    pub fn insert(&mut self, t: Task)
        requires
            old(self).wf(),
            t.wf(),
        ensures
            final(self)@ == old(self)@.push(t),
            final(self).wf(),
    {
        self.rows.push(t);
    }

    /// Every row, in table order.
    pub fn select_all(&self) -> (r: Vec<Task>)
        ensures
            r@ == self@,
    {
        let mut r: Vec<Task> = Vec::new();
        let mut i: usize = 0;
        while i < self.rows.len()
            invariant
                i <= self@.len(),
                r@ == self@.subrange(0, i as int),
            decreases self@.len() - i,
        {
            r.push(self.rows[i].duplicate());
            i = i + 1;
            assert(r@ =~= self@.subrange(0, i as int));
        }
        assert(self@.subrange(0, self@.len() as int) =~= self@);
        r
    }

    /// The rows whose names contain `fragment`, ignoring case, in table order.
    pub fn select_matching(&self, fragment: &str) -> (r: Vec<Task>)
        ensures
            r@ == matching(self@, fragment@),
    {
        let mut r: Vec<Task> = Vec::new();
        let mut i: usize = 0;
        while i < self.rows.len()
            invariant
                i <= self@.len(),
                r@ == matching(self@.subrange(0, i as int), fragment@),
            decreases self@.len() - i,
        {
            let ghost before = self@.subrange(0, i as int);
            assert(self@.subrange(0, i + 1).drop_last() =~= before);
            if matches_fragment(self.rows[i].name.as_str(), fragment) {
                r.push(self.rows[i].duplicate());
            }
            i = i + 1;
        }
        assert(self@.subrange(0, self@.len() as int) =~= self@);
        r
    }

    /// The first row whose name contains `fragment`, ignoring case, if any.
    pub fn first_matching(&self, fragment: &str) -> (r: Option<Task>)
        ensures
            matching(self@, fragment@).len() == 0 ==> r is None,
            matching(self@, fragment@).len() > 0 ==> r == Some(matching(self@, fragment@)[0]),
    {
        crate::flow::edit_target(self.select_matching(fragment))
    }

    /// Sets one field of every row named exactly `name`.
    pub fn update_field(&mut self, name: &str, change: &FieldChange)
        requires
            old(self).wf(),
            change.wf(),
        ensures
            final(self)@ == updated(old(self)@, name@, *change),
            final(self).wf(),
    {
        let ghost start = self@;
        let mut i: usize = 0;
        while i < self.rows.len()
            invariant
                self@.len() == start.len(),
                i <= start.len(),
                all_wf(start),
                change.wf(),
                forall|k: int|
                    0 <= k < start.len() ==> #[trigger] self@[k] == if k < i {
                        updated(start, name@, *change)[k]
                    } else {
                        start[k]
                    },
            decreases start.len() - i,
        {
            if same_text(self.rows[i].name.as_str(), name) {
                let t = change.apply_to(&self.rows[i]);
                self.rows.set(i, t);
            }
            i = i + 1;
        }
        assert(self@ =~= updated(start, name@, *change));
    }

    /// Removes every row whose name contains `fragment`, ignoring case, and
    /// returns how many were removed.
    pub fn delete_matching(&mut self, fragment: &str) -> (removed: usize)
        requires
            old(self).wf(),
        ensures
            final(self)@ == kept(old(self)@, fragment@),
            removed == old(self)@.len() - final(self)@.len(),
            final(self).wf(),
    {
        let ghost start = self@;
        let mut rest: Vec<Task> = Vec::new();
        let mut i: usize = 0;
        while i < self.rows.len()
            invariant
                self@ == start,
                i <= start.len(),
                rest@ == kept(start.subrange(0, i as int), fragment@),
            decreases start.len() - i,
        {
            assert(start.subrange(0, i + 1).drop_last() =~= start.subrange(0, i as int));
            if !matches_fragment(self.rows[i].name.as_str(), fragment) {
                rest.push(self.rows[i].duplicate());
            }
            i = i + 1;
        }
        assert(start.subrange(0, start.len() as int) =~= start);
        proof {
            lemma_split_len(start, fragment@);
            lemma_kept_wf(start, fragment@);
        }
        let removed = self.rows.len() - rest.len();
        self.rows = rest;
        removed
    }
}

} // verus!
