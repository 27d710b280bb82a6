//! The cells of the task table: a bold, colored header and one row per task.
use crate::task::{Color, Task};
use vstd::prelude::*;

verus! {

/// One table cell: its text, its foreground color if any, and whether it is bold.
#[derive(Debug)]
pub struct StyledCell {
    pub text: String,
    pub color: Option<Color>,
    pub bold: bool,
}

pub type CellView = (Seq<char>, Option<Color>, bool);

impl StyledCell {
    pub open spec fn view_cell(&self) -> CellView {
        (self.text@, self.color, self.bold)
    }
}

pub open spec fn cells_view(cells: Seq<StyledCell>) -> Seq<CellView> {
    Seq::new(cells.len(), |i: int| cells[i].view_cell())
}

/// The header: four bold labels, each in its own color.
pub open spec fn header_spec() -> Seq<CellView> {
    seq![
        ("Task"@, Some(Color::Cyan), true),
        ("Description"@, Some(Color::DarkCyan), true),
        ("Deadline"@, Some(Color::Magenta), true),
        ("Status"@, Some(Color::DarkMagenta), true),
    ]
}

/// The row of one task; only the status cell is colored, by its status.
pub open spec fn row_of(t: Task) -> Seq<CellView> {
    seq![
        (t.name@, None, false),
        (t.description@, None, false),
        (t.deadline.text(), None, false),
        (t.status.label(), Some(t.status.color()), false),
    ]
}

/// The rows of a table over `tasks`, in their order.
pub open spec fn rows_of(tasks: Seq<Task>) -> Seq<Seq<CellView>> {
    Seq::new(tasks.len(), |i: int| row_of(tasks[i]))
}

fn plain_cell(text: String) -> (r: StyledCell)
    ensures
        r.view_cell() == (text@, None::<Color>, false),
{
    StyledCell { text, color: None, bold: false }
}

fn header_cell(text: &str, color: Color) -> (r: StyledCell)
    ensures
        r.view_cell() == (text@, Some(color), true),
{
    StyledCell { text: String::from_str(text), color: Some(color), bold: true }
}

/// The header row of the task table.
pub fn header_cells() -> (r: Vec<StyledCell>)
    ensures
        cells_view(r@) == header_spec(),
{
    let r = vec![
        header_cell("Task", Color::Cyan),
        header_cell("Description", Color::DarkCyan),
        header_cell("Deadline", Color::Magenta),
        header_cell("Status", Color::DarkMagenta),
    ];
    assert(cells_view(r@) =~= header_spec());
    r
}

/// The row that shows one task.
pub fn task_cells(t: &Task) -> (r: Vec<StyledCell>)
    requires
        t.wf(),
    ensures
        cells_view(r@) == row_of(*t),
{
    let status_cell = StyledCell {
        text: t.status.display_label(),
        color: Some(t.status.display_color()),
        bold: false,
    };
    let r = vec![
        plain_cell(t.name.clone()),
        plain_cell(t.description.clone()),
        plain_cell(t.deadline.format_dmy()),
        status_cell,
    ];
    assert(cells_view(r@) =~= row_of(*t));
    r
}

/// The data rows of the task table, one per task, in input order.
pub fn table_rows(tasks: &Vec<Task>) -> (r: Vec<Vec<StyledCell>>)
    requires
        forall|i: int| 0 <= i < tasks@.len() ==> (#[trigger] tasks@[i]).wf(),
    ensures
        r@.len() == tasks@.len(),
        forall|i: int| 0 <= i < r@.len() ==> cells_view(#[trigger] r@[i]@) == row_of(tasks@[i]),
{
    let mut r: Vec<Vec<StyledCell>> = Vec::new();
    let mut i: usize = 0;
    while i < tasks.len()
        invariant
            i <= tasks@.len(),
            r@.len() == i,
            forall|k: int| 0 <= k < tasks@.len() ==> (#[trigger] tasks@[k]).wf(),
            forall|k: int| 0 <= k < i ==> cells_view(#[trigger] r@[k]@) == row_of(tasks@[k]),
        decreases tasks@.len() - i,
    {
        r.push(task_cells(&tasks[i]));
        i = i + 1;
    }
    r
}

/// The width, in columns, that the task table is laid out to.
pub const TABLE_WIDTH: u16 = 80;

/// How the task table is framed.
#[derive(Clone, Copy, Debug, PartialEq, Eq, Structural)]
pub enum Border {
    /// Full borders around and between all cells, with rounded corners.
    FullRounded,
}

/// The whole table: its frame, its width, the header and the rows of
/// `tasks`. An empty `tasks` gives the header alone.
pub struct TaskTableView {
    pub border: Border,
    pub width: u16,
    pub header: Vec<StyledCell>,
    pub rows: Vec<Vec<StyledCell>>,
}

impl TaskTableView {
    pub open spec fn shows(&self, tasks: Seq<Task>) -> bool {
        &&& self.border == Border::FullRounded
        &&& self.width == TABLE_WIDTH
        &&& cells_view(self.header@) == header_spec()
        &&& self.rows@.len() == tasks.len()
        &&& forall|i: int|
            0 <= i < tasks.len() ==> cells_view(#[trigger] self.rows@[i]@) == row_of(tasks[i])
    }

    pub open spec fn rows_view(&self) -> Seq<Seq<CellView>> {
        Seq::new(self.rows@.len(), |i: int| cells_view(self.rows@[i]@))
    }
}

/// Lays out `tasks` as a table: header first, then one row per task.
pub fn create_table(tasks: &Vec<Task>) -> (r: TaskTableView)
    requires
        forall|i: int| 0 <= i < tasks@.len() ==> (#[trigger] tasks@[i]).wf(),
    ensures
        r.shows(tasks@),
        r.rows_view() == rows_of(tasks@),
{
    let r = TaskTableView {
        border: Border::FullRounded,
        width: TABLE_WIDTH,
        header: header_cells(),
        rows: table_rows(tasks),
    };
    assert(r.rows_view() =~= rows_of(tasks@));
    r
}

} // verus!
