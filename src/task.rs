//! Task records, the status set and the closed choice sets of the menus.
use crate::date::Date;
use vstd::prelude::*;

verus! {

/// A display color of the task table.
#[derive(Clone, Copy, Debug, PartialEq, Eq, Structural)]
pub enum Color {
    Red,
    Blue,
    Green,
    Cyan,
    DarkCyan,
    Magenta,
    DarkMagenta,
}

/// The life-cycle state of a task; any state may be set to any other.
#[derive(Clone, Copy, Debug, PartialEq, Eq, Structural)]
pub enum Status {
    Complete,
    InProgress,
    New,
}

impl Status {
    pub open spec fn label(self) -> Seq<char> {
        match self {
            Status::New => "New"@,
            Status::InProgress => "In Progress"@,
            Status::Complete => "Complete"@,
        }
    }

    pub open spec fn color(self) -> Color {
        match self {
            Status::New => Color::Red,
            Status::InProgress => Color::Blue,
            Status::Complete => Color::Green,
        }
    }

    /// The label shown for this status.
    pub fn display_label(&self) -> (r: String)
        ensures
            r@ == self.label(),
    {
        match self {
            Status::New => String::from_str("New"),
            Status::InProgress => String::from_str("In Progress"),
            Status::Complete => String::from_str("Complete"),
        }
    }

    /// The color that a status cell is shown in.
    pub fn display_color(&self) -> (r: Color)
        ensures
            r == self.color(),
    {
        match self {
            Status::New => Color::Red,
            Status::InProgress => Color::Blue,
            Status::Complete => Color::Green,
        }
    }

    pub open spec fn choices_spec() -> Seq<Status> {
        seq![Status::New, Status::InProgress, Status::Complete]
    }

    /// The statuses offered when a task's status is edited, in order.
    pub fn choices() -> (r: Vec<Status>)
        ensures
            r@ == Self::choices_spec(),
    {
        let r = vec![Status::New, Status::InProgress, Status::Complete];
        assert(r@ =~= Self::choices_spec());
        r
    }
}

/// One task: its name identifies it in the store.
#[derive(Debug)]
pub struct Task {
    pub name: String,
    pub description: String,
    pub deadline: Date,
    pub status: Status,
}

impl Task {
    pub open spec fn wf(&self) -> bool {
        self.deadline.wf()
    }

    /// A field-for-field copy.
    pub fn duplicate(&self) -> (r: Task)
        ensures
            r == *self,
    {
        Task {
            name: self.name.clone(),
            description: self.description.clone(),
            deadline: self.deadline,
            status: self.status,
        }
    }
}

/// The actions of the main menu.
#[derive(Clone, Copy, Debug, PartialEq, Eq, Structural)]
pub enum MenuChoice {
    View,
    Search,
    Add,
    Delete,
    Update,
    Exit,
}

impl MenuChoice {
    pub open spec fn label(self) -> Seq<char> {
        match self {
            MenuChoice::View => "View All Tasks"@,
            MenuChoice::Search => "Search Tasks"@,
            MenuChoice::Add => "Add Task"@,
            MenuChoice::Delete => "Delete Task"@,
            MenuChoice::Update => "Update Task"@,
            MenuChoice::Exit => "Exit Program"@,
        }
    }

    /// The text the menu shows for this action.
    pub fn display_label(&self) -> (r: String)
        ensures
            r@ == self.label(),
    {
        match self {
            MenuChoice::View => String::from_str("View All Tasks"),
            MenuChoice::Search => String::from_str("Search Tasks"),
            MenuChoice::Add => String::from_str("Add Task"),
            MenuChoice::Delete => String::from_str("Delete Task"),
            MenuChoice::Update => String::from_str("Update Task"),
            MenuChoice::Exit => String::from_str("Exit Program"),
        }
    }

    pub open spec fn choices_spec() -> Seq<MenuChoice> {
        seq![
            MenuChoice::View,
            MenuChoice::Search,
            MenuChoice::Add,
            MenuChoice::Delete,
            MenuChoice::Update,
            MenuChoice::Exit,
        ]
    }

    /// The six actions of the main menu, in the order shown.
    pub fn choices() -> (r: Vec<MenuChoice>)
        ensures
            r@ == Self::choices_spec(),
    {
        let r = vec![
            MenuChoice::View,
            MenuChoice::Search,
            MenuChoice::Add,
            MenuChoice::Delete,
            MenuChoice::Update,
            MenuChoice::Exit,
        ];
        assert(r@ =~= Self::choices_spec());
        r
    }
}

/// The fields of a task that can be edited.
#[derive(Clone, Copy, Debug, PartialEq, Eq, Structural)]
pub enum UpdateField {
    Description,
    Deadline,
    Status,
}

impl UpdateField {
    pub open spec fn label(self) -> Seq<char> {
        match self {
            UpdateField::Description => "Task Description"@,
            UpdateField::Deadline => "Deadline"@,
            UpdateField::Status => "Task Status"@,
        }
    }

    /// The text the field menu shows for this field.
    pub fn display_label(&self) -> (r: String)
        ensures
            r@ == self.label(),
    {
        match self {
            UpdateField::Description => String::from_str("Task Description"),
            UpdateField::Deadline => String::from_str("Deadline"),
            UpdateField::Status => String::from_str("Task Status"),
        }
    }

    pub open spec fn choices_spec() -> Seq<UpdateField> {
        seq![UpdateField::Description, UpdateField::Deadline, UpdateField::Status]
    }

    /// The editable fields, in the order shown.
    pub fn choices() -> (r: Vec<UpdateField>)
        ensures
            r@ == Self::choices_spec(),
    {
        let r = vec![UpdateField::Description, UpdateField::Deadline, UpdateField::Status];
        assert(r@ =~= Self::choices_spec());
        r
    }
}

/// A new value for one field of a task.
#[derive(Debug)]
pub enum FieldChange {
    Description(String),
    Deadline(Date),
    Status(Status),
}

impl FieldChange {
    pub open spec fn field(&self) -> UpdateField {
        match self {
            FieldChange::Description(_) => UpdateField::Description,
            FieldChange::Deadline(_) => UpdateField::Deadline,
            FieldChange::Status(_) => UpdateField::Status,
        }
    }

    pub open spec fn wf(&self) -> bool {
        match self {
            FieldChange::Deadline(d) => d.wf(),
            _ => true,
        }
    }

    /// The task with this field replaced and the others kept.
    pub open spec fn apply(&self, t: Task) -> Task {
        match self {
            FieldChange::Description(s) => Task { description: *s, ..t },
            FieldChange::Deadline(d) => Task { deadline: *d, ..t },
            FieldChange::Status(st) => Task { status: *st, ..t },
        }
    }

    /// Which field this change edits.
    pub fn target(&self) -> (r: UpdateField)
        ensures
            r == self.field(),
    {
        match self {
            FieldChange::Description(_) => UpdateField::Description,
            FieldChange::Deadline(_) => UpdateField::Deadline,
            FieldChange::Status(_) => UpdateField::Status,
        }
    }

    /// `t` with this field replaced.
    pub fn apply_to(&self, t: &Task) -> (r: Task)
        ensures
            r == self.apply(*t),
    {
        let mut r = t.duplicate();
        match self {
            FieldChange::Description(s) => {
                r.description = s.clone();
            },
            FieldChange::Deadline(d) => {
                r.deadline = *d;
            },
            FieldChange::Status(st) => {
                r.status = *st;
            },
        }
        r
    }
}

/// A task as the add operation creates it: every new task starts as `New`.
pub fn new_task(name: String, deadline: Date, description: String) -> (r: Task)
    ensures
        r.name == name,
        r.description == description,
        r.deadline == deadline,
        r.status == Status::New,
{
    Task { name, description, deadline, status: Status::New }
}

} // verus!
