//! The decisions of the interactive workflows. Prompts and statements are
//! performed by the caller, which feeds each answer back as an event.
use crate::render::{create_table, TaskTableView};
use crate::store::{all_wf, kept, TaskStore};
use crate::task::{FieldChange, MenuChoice, Task, UpdateField};
use vstd::prelude::*;

verus! {

/// Where the main menu loop stands.
#[derive(Clone, Copy, Debug, PartialEq, Eq, Structural)]
pub enum MenuState {
    Prompting,
    Running(MenuChoice),
    ConfirmingReturn,
    Finished,
}

/// What the user or an operation answered.
#[derive(Clone, Copy, Debug, PartialEq, Eq, Structural)]
pub enum MenuEvent {
    Chosen(MenuChoice),
    ChoiceFailed,
    OperationDone,
    ReturnAnswered(bool),
    ReturnFailed,
}

/// What the caller does next.
#[derive(Clone, Copy, Debug, PartialEq, Eq, Structural)]
pub enum MenuAction {
    /// Show the menu again after telling the user the choice failed.
    RetryNotice,
    Run(MenuChoice),
    AskReturn,
    /// Clear the screen and show the menu.
    ClearThenPrompt,
    /// Report the failed answer and show the menu.
    ErrorNotice,
    /// Clear the screen and end the program successfully.
    ClearThenExit,
    /// End the program successfully.
    Exit,
    /// The event does not fit the state: nothing happens.
    Stay,
}

/// One step of the main menu loop.
pub fn menu_step(state: MenuState, event: MenuEvent) -> (r: (MenuState, MenuAction))
    ensures
        state == MenuState::Finished ==> r == (MenuState::Finished, MenuAction::Exit),
        state == MenuState::Prompting ==> match event {
            MenuEvent::Chosen(MenuChoice::Exit) => r == (MenuState::Finished, MenuAction::Exit),
            MenuEvent::Chosen(c) => r == (MenuState::Running(c), MenuAction::Run(c)),
            MenuEvent::ChoiceFailed => r == (MenuState::Prompting, MenuAction::RetryNotice),
            _ => r == (state, MenuAction::Stay),
        },
        state is Running ==> r == if event == MenuEvent::OperationDone {
            (MenuState::ConfirmingReturn, MenuAction::AskReturn)
        } else {
            (state, MenuAction::Stay)
        },
        state == MenuState::ConfirmingReturn ==> match event {
            MenuEvent::ReturnAnswered(true) => r == (
                MenuState::Prompting,
                MenuAction::ClearThenPrompt,
            ),
            MenuEvent::ReturnAnswered(false) => r == (
                MenuState::Finished,
                MenuAction::ClearThenExit,
            ),
            MenuEvent::ReturnFailed => r == (MenuState::Prompting, MenuAction::ErrorNotice),
            _ => r == (state, MenuAction::Stay),
        },
{
    match state {
        MenuState::Finished => (MenuState::Finished, MenuAction::Exit),
        MenuState::Prompting => match event {
            MenuEvent::Chosen(MenuChoice::Exit) => (MenuState::Finished, MenuAction::Exit),
            MenuEvent::Chosen(c) => (MenuState::Running(c), MenuAction::Run(c)),
            MenuEvent::ChoiceFailed => (MenuState::Prompting, MenuAction::RetryNotice),
            _ => (state, MenuAction::Stay),
        },
        MenuState::Running(_) => match event {
            MenuEvent::OperationDone => (MenuState::ConfirmingReturn, MenuAction::AskReturn),
            _ => (state, MenuAction::Stay),
        },
        MenuState::ConfirmingReturn => match event {
            MenuEvent::ReturnAnswered(true) => (MenuState::Prompting, MenuAction::ClearThenPrompt),
            MenuEvent::ReturnAnswered(false) => (MenuState::Finished, MenuAction::ClearThenExit),
            MenuEvent::ReturnFailed => (MenuState::Prompting, MenuAction::ErrorNotice),
            _ => (state, MenuAction::Stay),
        },
    }
}

/// What a search shows.
pub enum SearchOutcome {
    /// "No Tasks Found": no table is laid out.
    NoneFound,
    Found(TaskTableView),
}

/// The outcome of a search that returned `found`.
pub fn search_outcome(found: &Vec<Task>) -> (r: SearchOutcome)
    requires
        all_wf(found@),
    ensures
        r is NoneFound <==> found@.len() == 0,
        r matches SearchOutcome::Found(t) ==> t.shows(found@),
{
    if found.len() == 0 {
        SearchOutcome::NoneFound
    } else {
        SearchOutcome::Found(create_table(found))
    }
}

/// The names of `tasks`, in order: the candidates of a selection.
pub fn task_names(tasks: &Vec<Task>) -> (r: Vec<String>)
    ensures
        r@.len() == tasks@.len(),
        forall|i: int| 0 <= i < r@.len() ==> (#[trigger] r@[i])@ == tasks@[i].name@,
{
    let mut r: Vec<String> = Vec::new();
    let mut i: usize = 0;
    while i < tasks.len()
        invariant
            i <= tasks@.len(),
            r@.len() == i,
            forall|k: int| 0 <= k < i ==> (#[trigger] r@[k])@ == tasks@[k].name@,
        decreases tasks@.len() - i,
    {
        r.push(tasks[i].name.clone());
        i = i + 1;
    }
    r
}

/// The task that the edit operation works on, given the rows fetched for the
/// chosen name: the first of them, or `None` ("Error with selection.") when
/// none came back, in which case the operation ends without editing.
pub fn edit_target(found: Vec<Task>) -> (r: Option<Task>)
    ensures
        found@.len() == 0 ==> r is None,
        found@.len() > 0 ==> r == Some(found@[0]),
{
    let mut found = found;
    if found.len() == 0 {
        None
    } else {
        Some(found.remove(0))
    }
}

/// The decision of the delete operation on the chosen name.
#[derive(Debug)]
pub enum DeleteStep {
    /// Confirmation declined: the task stays.
    Keep(String),
    /// Remove every task whose name contains this text, ignoring case.
    Remove(String),
}

/// Decides the delete operation: the chosen name is removed only when confirmed.
pub fn delete_step(choice: String, confirmed: bool) -> (r: DeleteStep)
    ensures
        !confirmed ==> r == DeleteStep::Keep(choice),
        confirmed ==> r == DeleteStep::Remove(choice),
{
    if confirmed {
        DeleteStep::Remove(choice)
    } else {
        DeleteStep::Keep(choice)
    }
}

/// The rows after `step` is carried out on `rows`.
pub open spec fn after_delete(rows: Seq<Task>, step: DeleteStep) -> Seq<Task> {
    match step {
        DeleteStep::Keep(_) => rows,
        DeleteStep::Remove(f) => kept(rows, f@),
    }
}

/// Carries out `step` on `store`; returns how many rows were removed.
pub fn apply_delete(store: &mut TaskStore, step: &DeleteStep) -> (removed: usize)
    requires
        old(store).wf(),
    ensures
        final(store)@ == after_delete(old(store)@, *step),
        removed == old(store)@.len() - final(store)@.len(),
        final(store).wf(),
{
    match step {
        DeleteStep::Keep(_) => 0,
        DeleteStep::Remove(f) => store.delete_matching(f.as_str()),
    }
}

/// Where the edit loop on one task stands.
#[derive(Clone, Copy, Debug, PartialEq, Eq, Structural)]
pub enum EditState {
    ChoosingField,
    EnteringValue(UpdateField),
    ConfirmingDone,
    Done,
}

/// What the user answered in the edit loop.
#[derive(Debug)]
pub enum EditEvent {
    FieldChosen(UpdateField),
    ValueEntered(FieldChange),
    DoneAnswered(bool),
}

/// What the caller does next in the edit loop.
#[derive(Debug)]
pub enum EditAction {
    /// Ask for the new value of this field.
    PromptValue(UpdateField),
    /// Update this field of the selected task, keyed by its exact name,
    /// then ask whether editing is finished.
    Apply(FieldChange),
    /// Ask again which field to edit.
    PromptField,
    /// Go back to the main menu.
    Return,
    /// The event does not fit the state: nothing happens.
    Stay,
}

/// One step of the edit loop.
pub fn edit_step(state: EditState, event: EditEvent) -> (r: (EditState, EditAction))
    ensures
        state == EditState::Done ==> r == (EditState::Done, EditAction::Return),
        state == EditState::ChoosingField ==> match event {
            EditEvent::FieldChosen(f) => r == (
                EditState::EnteringValue(f),
                EditAction::PromptValue(f),
            ),
            _ => r == (state, EditAction::Stay),
        },
        state matches EditState::EnteringValue(f) ==> match event {
            EditEvent::ValueEntered(c) => if c.field() == f {
                r == (EditState::ConfirmingDone, EditAction::Apply(c))
            } else {
                r == (state, EditAction::Stay)
            },
            _ => r == (state, EditAction::Stay),
        },
        state == EditState::ConfirmingDone ==> match event {
            EditEvent::DoneAnswered(true) => r == (EditState::Done, EditAction::Return),
            EditEvent::DoneAnswered(false) => r == (
                EditState::ChoosingField,
                EditAction::PromptField,
            ),
            _ => r == (state, EditAction::Stay),
        },
{
    match state {
        EditState::Done => (EditState::Done, EditAction::Return),
        EditState::ChoosingField => match event {
            EditEvent::FieldChosen(f) => (EditState::EnteringValue(f), EditAction::PromptValue(f)),
            _ => (state, EditAction::Stay),
        },
        EditState::EnteringValue(f) => match event {
            EditEvent::ValueEntered(c) => {
                if c.target() == f {
                    (EditState::ConfirmingDone, EditAction::Apply(c))
                } else {
                    (state, EditAction::Stay)
                }
            },
            _ => (state, EditAction::Stay),
        },
        EditState::ConfirmingDone => match event {
            EditEvent::DoneAnswered(true) => (EditState::Done, EditAction::Return),
            EditEvent::DoneAnswered(false) => (EditState::ChoosingField, EditAction::PromptField),
            _ => (state, EditAction::Stay),
        },
    }
}

} // verus!
