use taskman::date::Date;
use taskman::flow::{
    apply_delete, delete_step, edit_step, edit_target, menu_step, search_outcome, task_names, DeleteStep,
    EditAction, EditEvent, EditState, MenuAction, MenuEvent, MenuState, SearchOutcome,
};
use taskman::matching::{contains_chars, like_pattern, matches_fragment};
use taskman::render::{create_table, header_cells, task_cells, Border};
use taskman::store::{same_text, TaskStore};
use taskman::task::{new_task, Color, FieldChange, MenuChoice, Status, Task, UpdateField};

fn day(y: i32, m: u32, d: u32) -> Date {
    Date::from_ymd(y, m, d).unwrap()
}

fn task(name: &str, description: &str, status: Status) -> Task {
    Task {
        name: name.to_string(),
        description: description.to_string(),
        deadline: day(2024, 3, 5),
        status,
    }
}

fn texts(cells: &[taskman::render::StyledCell]) -> Vec<String> {
    cells.iter().map(|c| c.text.clone()).collect()
}

#[test]
fn date_checks_existing_days() {
    assert!(Date::from_ymd(2024, 2, 29).is_some());
    assert!(Date::from_ymd(2023, 2, 29).is_none());
    assert!(Date::from_ymd(2023, 4, 31).is_none());
    assert!(Date::from_ymd(2023, 13, 1).is_none());
    assert!(Date::from_ymd(2023, 1, 0).is_none());
    assert!(Date::from_ymd(1900, 2, 29).is_none());
    assert!(Date::from_ymd(2000, 2, 29).is_some());
    assert!(Date::from_ymd(10000, 1, 1).is_none());
    assert!(Date::from_ymd(-1, 1, 1).is_none());
}

#[test]
fn date_formats_day_month_year() {
    assert_eq!(day(2024, 3, 5).format_dmy(), "05-03-2024");
    assert_eq!(day(1999, 12, 31).format_dmy(), "31-12-1999");
    assert_eq!(day(7, 1, 9).format_dmy(), "09-01-0007");
}

#[test]
fn status_labels_and_colors() {
    assert_eq!(Status::New.display_label(), "New");
    assert_eq!(Status::InProgress.display_label(), "In Progress");
    assert_eq!(Status::Complete.display_label(), "Complete");
    assert_eq!(Status::New.display_color(), Color::Red);
    assert_eq!(Status::InProgress.display_color(), Color::Blue);
    assert_eq!(Status::Complete.display_color(), Color::Green);
    assert_eq!(Status::choices(), vec![Status::New, Status::InProgress, Status::Complete]);
}

#[test]
fn menu_and_field_choices_in_order() {
    let labels: Vec<String> = MenuChoice::choices().iter().map(|c| c.display_label()).collect();
    assert_eq!(
        labels,
        vec![
            "View All Tasks",
            "Search Tasks",
            "Add Task",
            "Delete Task",
            "Update Task",
            "Exit Program"
        ]
    );
    let fields: Vec<String> = UpdateField::choices().iter().map(|f| f.display_label()).collect();
    assert_eq!(fields, vec!["Task Description", "Deadline", "Task Status"]);
}

#[test]
fn new_task_starts_as_new() {
    let t = new_task("Write".to_string(), day(2025, 1, 2), "draft".to_string());
    assert_eq!(t.status, Status::New);
    assert_eq!(t.name, "Write");
    assert_eq!(t.description, "draft");
    assert_eq!(t.deadline, day(2025, 1, 2));
}

#[test]
fn insert_then_list_shows_one_matching_row() {
    let mut store = TaskStore::new();
    store.insert(task("Other", "x", Status::InProgress));
    store.insert(new_task("Write".to_string(), day(2025, 1, 2), "draft".to_string()));
    let all = store.select_all();
    let table = create_table(&all);
    assert_eq!(texts(&table.header), vec!["Task", "Description", "Deadline", "Status"]);
    let want = vec!["Write", "draft", "02-01-2025", "New"];
    let hits = table.rows.iter().filter(|r| texts(r) == want).count();
    assert_eq!(hits, 1);
    assert_eq!(table.rows.len(), 2);
    assert_eq!(table.rows[1][3].color, Some(Color::Red));
}

#[test]
fn empty_table_has_header_only() {
    let table = create_table(&Vec::new());
    assert_eq!(table.header.len(), 4);
    assert!(table.header.iter().all(|c| c.bold));
    assert_eq!(table.width, 80);
    assert_eq!(table.border, Border::FullRounded);
    assert_eq!(table.header[0].color, Some(Color::Cyan));
    assert_eq!(table.header[1].color, Some(Color::DarkCyan));
    assert_eq!(table.header[2].color, Some(Color::Magenta));
    assert_eq!(table.header[3].color, Some(Color::DarkMagenta));
    assert!(table.rows.is_empty());
    assert_eq!(header_cells().len(), 4);
}

#[test]
fn search_without_hit_shows_nothing_found() {
    let mut store = TaskStore::new();
    store.insert(task("Report", "a", Status::New));
    let found = store.select_matching("zzz");
    assert!(found.is_empty());
    assert!(matches!(search_outcome(&found), SearchOutcome::NoneFound));
}

#[test]
fn search_and_delete_share_substring_match() {
    let mut store = TaskStore::new();
    store.insert(task("Report", "a", Status::New));
    store.insert(task("Report2", "b", Status::New));
    store.insert(task("Budget", "c", Status::New));
    let found = store.select_matching("report");
    let names: Vec<String> = task_names(&found);
    assert_eq!(names, vec!["Report", "Report2"]);
    match search_outcome(&found) {
        SearchOutcome::Found(t) => assert_eq!(t.rows.len(), 2),
        SearchOutcome::NoneFound => panic!("expected a table"),
    }
    let step = delete_step("Report".to_string(), true);
    assert_eq!(apply_delete(&mut store, &step), 2);
    let left = task_names(&store.select_all());
    assert_eq!(left, vec!["Budget"]);
}

#[test]
fn update_by_exact_name_spares_similar_names() {
    let mut store = TaskStore::new();
    store.insert(task("Report", "a", Status::New));
    store.insert(task("Report2", "b", Status::New));
    store.update_field("Report", &FieldChange::Description("changed".to_string()));
    let all = store.select_all();
    assert_eq!(all[0].description, "changed");
    assert_eq!(all[1].description, "b");
    assert_eq!(all[1].status, Status::New);
}

#[test]
fn declined_delete_keeps_row_count() {
    let mut store = TaskStore::new();
    store.insert(task("Report", "a", Status::New));
    store.insert(task("Report2", "b", Status::New));
    let step = delete_step("Report".to_string(), false);
    assert!(matches!(step, DeleteStep::Keep(_)));
    assert_eq!(apply_delete(&mut store, &step), 0);
    assert_eq!(store.len(), 2);
}

#[test]
fn status_update_to_complete_shows_green() {
    let mut store = TaskStore::new();
    store.insert(task("Report", "a", Status::New));
    store.update_field("Report", &FieldChange::Status(Status::Complete));
    let all = store.select_all();
    assert_eq!(all[0].status, Status::Complete);
    let row = task_cells(&all[0]);
    assert_eq!(row[3].text, "Complete");
    assert_eq!(row[3].color, Some(Color::Green));
}

#[test]
fn deadline_update_reformats_row() {
    let mut store = TaskStore::new();
    store.insert(task("Plan", "a", Status::InProgress));
    store.update_field("Plan", &FieldChange::Deadline(day(2030, 11, 20)));
    let row = task_cells(&store.select_all()[0]);
    assert_eq!(texts(&row), vec!["Plan", "a", "20-11-2030", "In Progress"]);
}

#[test]
fn edit_target_takes_first_fetched_row() {
    assert!(edit_target(Vec::new()).is_none());
    let picked = edit_target(vec![task("Report", "a", Status::New), task("Report2", "b", Status::New)]);
    assert_eq!(picked.unwrap().name, "Report");
}

#[test]
fn first_matching_finds_first_row() {
    let mut store = TaskStore::new();
    store.insert(task("Report", "a", Status::New));
    store.insert(task("Report2", "b", Status::New));
    assert_eq!(store.first_matching("REPORT").unwrap().name, "Report");
    assert!(store.first_matching("nothing").is_none());
}

#[test]
fn menu_exit_ends_without_prompts() {
    let (s, a) = menu_step(MenuState::Prompting, MenuEvent::Chosen(MenuChoice::Exit));
    assert_eq!(s, MenuState::Finished);
    assert_eq!(a, MenuAction::Exit);
    let (s2, a2) = menu_step(s, MenuEvent::ChoiceFailed);
    assert_eq!((s2, a2), (MenuState::Finished, MenuAction::Exit));
}

#[test]
fn menu_return_no_ends_after_operation() {
    let (s, a) = menu_step(MenuState::Prompting, MenuEvent::Chosen(MenuChoice::Add));
    assert_eq!(a, MenuAction::Run(MenuChoice::Add));
    let (s, a) = menu_step(s, MenuEvent::OperationDone);
    assert_eq!((s, a), (MenuState::ConfirmingReturn, MenuAction::AskReturn));
    let (s, a) = menu_step(s, MenuEvent::ReturnAnswered(false));
    assert_eq!((s, a), (MenuState::Finished, MenuAction::ClearThenExit));
}

#[test]
fn menu_failed_choice_prompts_again() {
    let (s, a) = menu_step(MenuState::Prompting, MenuEvent::ChoiceFailed);
    assert_eq!((s, a), (MenuState::Prompting, MenuAction::RetryNotice));
    let (s, a) = menu_step(MenuState::ConfirmingReturn, MenuEvent::ReturnAnswered(true));
    assert_eq!((s, a), (MenuState::Prompting, MenuAction::ClearThenPrompt));
    let (s, a) = menu_step(MenuState::ConfirmingReturn, MenuEvent::ReturnFailed);
    assert_eq!((s, a), (MenuState::Prompting, MenuAction::ErrorNotice));
}

#[test]
fn edit_loop_applies_then_asks() {
    let (s, a) = edit_step(EditState::ChoosingField, EditEvent::FieldChosen(UpdateField::Status));
    assert_eq!(s, EditState::EnteringValue(UpdateField::Status));
    assert!(matches!(a, EditAction::PromptValue(UpdateField::Status)));
    let (s2, a) = edit_step(s, EditEvent::ValueEntered(FieldChange::Description("d".to_string())));
    assert_eq!(s2, s);
    assert!(matches!(a, EditAction::Stay));
    let (s, a) = edit_step(s, EditEvent::ValueEntered(FieldChange::Status(Status::Complete)));
    assert_eq!(s, EditState::ConfirmingDone);
    assert!(matches!(a, EditAction::Apply(FieldChange::Status(Status::Complete))));
    let (s3, a) = edit_step(s, EditEvent::DoneAnswered(false));
    assert_eq!(s3, EditState::ChoosingField);
    assert!(matches!(a, EditAction::PromptField));
    let (s, a) = edit_step(s, EditEvent::DoneAnswered(true));
    assert_eq!(s, EditState::Done);
    assert!(matches!(a, EditAction::Return));
}

#[test]
fn matching_ignores_case() {
    assert!(matches_fragment("Quarterly REPORT", "report"));
    assert!(matches_fragment("report", "EPO"));
    assert!(!matches_fragment("Budget", "report"));
    assert!(matches_fragment("anything", ""));
    assert!(contains_chars("abcabd", "abd"));
    assert!(!contains_chars("abc", "abcd"));
    assert!(!contains_chars("ABC", "abc"));
    assert!(same_text("Report", "Report"));
    assert!(!same_text("Report", "Report2"));
    assert!(!same_text("Report", "report"));
}

#[test]
fn like_pattern_wraps_fragment() {
    assert_eq!(like_pattern("Report"), "%Report%");
    assert_eq!(like_pattern(""), "%%");
}
