use std::cell::RefCell;
use std::rc::Rc;

use todo_term::app::{App, AppMode};
use todo_term::todo::Todo;
use todo_term::todo_serializer::{PersistenceError, TodoSerializer, TodoSnapshot};

fn texts(items: &[&str]) -> Vec<String> {
    items.iter().map(|s| s.to_string()).collect()
}

/// An application on the given lists, without a storage strategy, with the
/// first index selected.
fn app_of(incomplete: &[&str], complete: &[&str]) -> App {
    let mut todo = Todo::new();
    let loaded = todo.apply_loaded(Ok(TodoSnapshot {
        complete_tasks: texts(complete),
        incomplete_tasks: texts(incomplete),
    }));
    App::started(todo, loaded)
}

fn select(app: &mut App, index: usize) {
    app.navigate_top();
    for _ in 0..index {
        app.navigate_down();
    }
    assert_eq!(app.get_selected(), Some(index));
}

/// Keeps what was saved last; fails to save while `fail` is set.
#[derive(Clone)]
struct Disk {
    saved: Rc<RefCell<Option<(Vec<String>, Vec<String>)>>>,
    fail: Rc<RefCell<bool>>,
}

impl Disk {
    fn new() -> Disk {
        Disk { saved: Rc::new(RefCell::new(None)), fail: Rc::new(RefCell::new(false)) }
    }

    fn holding(incomplete: &[&str], complete: &[&str]) -> Disk {
        let disk = Disk::new();
        *disk.saved.borrow_mut() = Some((texts(incomplete), texts(complete)));
        disk
    }
}

impl TodoSerializer for Disk {
    fn save(&self, snapshot: &TodoSnapshot) -> Result<(), PersistenceError> {
        if *self.fail.borrow() {
            return Err(PersistenceError { message: "disk full".to_string() });
        }
        *self.saved.borrow_mut() =
            Some((snapshot.incomplete_tasks.clone(), snapshot.complete_tasks.clone()));
        Ok(())
    }

    fn load(&self) -> Result<TodoSnapshot, PersistenceError> {
        match self.saved.borrow().as_ref() {
            Some((incomplete, complete)) => Ok(TodoSnapshot {
                complete_tasks: complete.clone(),
                incomplete_tasks: incomplete.clone(),
            }),
            None => Err(PersistenceError { message: "no such file".to_string() }),
        }
    }
}

#[test]
fn mode_names() {
    assert_eq!(AppMode::Normal.to_string(), "Normal");
    assert_eq!(AppMode::Insert.to_string(), "Insert");
}

#[test]
fn the_application_starts_on_what_the_strategy_loads() {
    let app = App::new(Box::new(Disk::holding(&["a", "b"], &["x"])));
    assert!(app.is_running());
    assert!(!app.is_help_visible());
    assert_eq!(app.get_mode(), AppMode::Normal);
    assert_eq!(app.get_selected(), Some(0));
    assert_eq!(app.get_action(), "");
    assert_eq!(app.get_incomplete_tasks(), &texts(&["a", "b"]));
    assert_eq!(app.get_complete_tasks(), &texts(&["x"]));
    assert!(!app.is_todo_empty());
}

#[test]
fn a_failed_first_load_is_shown_and_selects_nothing() {
    let app = App::new(Box::new(Disk::new()));
    assert_eq!(app.get_action(), "Error loading todo: no such file");
    assert_eq!(app.get_selected(), None);
    assert!(app.is_todo_empty());
    assert!(app.is_running());
    assert_eq!(app.get_mode(), AppMode::Normal);
}

#[test]
fn started_shows_the_failure_it_is_given() {
    let app = App::started(Todo::new(), Err(PersistenceError { message: "bad".to_string() }));
    assert_eq!(app.get_action(), "Error loading todo: bad");
    assert_eq!(app.get_selected(), None);
    let app = App::started(Todo::new(), Ok(()));
    assert_eq!(app.get_action(), "");
    assert_eq!(app.get_selected(), Some(0));
}

#[test]
fn navigation_wraps_at_both_ends() {
    let mut app = app_of(&["a", "b"], &["x"]);
    select(&mut app, 2);
    app.navigate_down();
    assert_eq!(app.get_selected(), Some(0));
    app.navigate_up();
    assert_eq!(app.get_selected(), Some(2));
    app.navigate_up();
    assert_eq!(app.get_selected(), Some(1));
    app.navigate_down();
    assert_eq!(app.get_selected(), Some(2));
}

#[test]
fn navigation_in_an_empty_store_stays_at_the_first_index() {
    let mut app = app_of(&[], &[]);
    assert_eq!(app.get_selected(), Some(0));
    app.navigate_down();
    assert_eq!(app.get_selected(), Some(0));
    app.navigate_up();
    assert_eq!(app.get_selected(), Some(0));
    app.navigate_bottom();
    assert_eq!(app.get_selected(), None);
    app.navigate_down();
    assert_eq!(app.get_selected(), None);
    app.navigate_up();
    assert_eq!(app.get_selected(), None);
    app.navigate_top();
    assert_eq!(app.get_selected(), Some(0));
}

#[test]
fn navigate_top_and_bottom() {
    let mut app = app_of(&["a", "b"], &["x", "y"]);
    app.navigate_bottom();
    assert_eq!(app.get_selected(), Some(3));
    app.navigate_top();
    assert_eq!(app.get_selected(), Some(0));
}

#[test]
fn add_task_above_takes_the_place_of_the_selection() {
    let mut app = app_of(&["a", "b"], &["x"]);
    select(&mut app, 1);
    app.add_task_above();
    assert_eq!(app.get_incomplete_tasks(), &texts(&["a", "", "b"]));
    assert_eq!(app.get_selected(), Some(1));
    assert_eq!(app.get_action(), "Added task above");
}

#[test]
fn add_task_below_goes_in_after_the_selection() {
    let mut app = app_of(&["a", "b"], &["x"]);
    select(&mut app, 0);
    app.add_task_below();
    assert_eq!(app.get_incomplete_tasks(), &texts(&["a", "", "b"]));
    assert_eq!(app.get_selected(), Some(1));
    assert_eq!(app.get_action(), "Added task below");
}

#[test]
fn a_task_added_at_a_complete_task_goes_to_the_end_of_the_incomplete() {
    let mut app = app_of(&["a", "b"], &["x", "y"]);
    select(&mut app, 3);
    app.add_task_above();
    assert_eq!(app.get_incomplete_tasks(), &texts(&["a", "b", ""]));
    assert_eq!(app.get_complete_tasks(), &texts(&["x", "y"]));
    assert_eq!(app.get_selected(), Some(2));

    let mut app = app_of(&["a", "b"], &["x", "y"]);
    select(&mut app, 2);
    app.add_task_below();
    assert_eq!(app.get_incomplete_tasks(), &texts(&["a", "b", ""]));
    assert_eq!(app.get_selected(), Some(2));
}

#[test]
fn adding_to_an_empty_store_selects_the_new_task() {
    let mut app = app_of(&[], &[]);
    app.add_task_below();
    assert_eq!(app.get_incomplete_tasks(), &texts(&[""]));
    assert_eq!(app.get_selected(), Some(0));

    let mut app = app_of(&[], &[]);
    app.navigate_bottom();
    assert_eq!(app.get_selected(), None);
    app.add_task_above();
    assert_eq!(app.get_incomplete_tasks(), &texts(&[""]));
    assert_eq!(app.get_selected(), Some(0));
}

#[test]
fn delete_keeps_the_selection_while_it_addresses_a_task() {
    let mut app = app_of(&["a", "b", "c"], &[]);
    select(&mut app, 1);
    app.delete_task();
    assert_eq!(app.get_incomplete_tasks(), &texts(&["a", "c"]));
    assert_eq!(app.get_selected(), Some(1));
    assert_eq!(app.get_action(), "Deleted task");
}

#[test]
fn deleting_the_last_task_selects_the_new_last() {
    let mut app = app_of(&["a", "b"], &["x"]);
    select(&mut app, 2);
    app.delete_task();
    assert!(app.get_complete_tasks().is_empty());
    assert_eq!(app.get_selected(), Some(1));
    app.delete_task();
    assert_eq!(app.get_selected(), Some(0));
    app.delete_task();
    assert!(app.is_todo_empty());
    assert_eq!(app.get_selected(), None);
}

#[test]
fn delete_in_an_empty_store_changes_no_task() {
    let mut app = app_of(&[], &[]);
    app.delete_task();
    assert!(app.is_todo_empty());
    assert_eq!(app.get_selected(), Some(0));
    assert_eq!(app.get_action(), "Deleted task");
}

#[test]
fn toggle_moves_the_selected_task() {
    let mut app = app_of(&["a", "b"], &["x"]);
    select(&mut app, 1);
    app.toggle_task();
    assert_eq!(app.get_incomplete_tasks(), &texts(&["a"]));
    assert_eq!(app.get_complete_tasks(), &texts(&["b", "x"]));
    assert_eq!(app.get_selected(), Some(1));
    assert_eq!(app.get_action(), "Toggled task");
    select(&mut app, 2);
    app.toggle_task();
    assert_eq!(app.get_incomplete_tasks(), &texts(&["a", "x"]));
    assert_eq!(app.get_complete_tasks(), &texts(&["b"]));
}

#[test]
fn operations_on_the_selection_leave_an_empty_store_alone() {
    let mut app = app_of(&[], &[]);
    app.toggle_task();
    assert_eq!(app.get_action(), "Toggled task");
    app.yank_task();
    assert_eq!(app.get_action(), "Yanked task");
    app.reset_task();
    app.append_to_task('x');
    app.pop_from_task();
    assert!(app.is_todo_empty());
    // Nothing was yanked, so nothing is pasted.
    app.paste_task_below();
    assert_eq!(app.get_action(), "Pasted task below");
    assert!(app.is_todo_empty());
}

#[test]
fn typing_and_erasing() {
    let mut app = app_of(&["caf"], &["x"]);
    app.append_to_task('é');
    assert_eq!(app.get_incomplete_tasks(), &texts(&["café"]));
    app.append_to_task('!');
    assert_eq!(app.get_incomplete_tasks(), &texts(&["café!"]));
    app.pop_from_task();
    app.pop_from_task();
    assert_eq!(app.get_incomplete_tasks(), &texts(&["caf"]));
    select(&mut app, 1);
    app.append_to_task('y');
    assert_eq!(app.get_complete_tasks(), &texts(&["xy"]));
    assert_eq!(app.get_incomplete_tasks(), &texts(&["caf"]));
}

#[test]
fn erasing_from_an_empty_text_changes_nothing() {
    let mut app = app_of(&["", "b"], &[]);
    app.pop_from_task();
    assert_eq!(app.get_incomplete_tasks(), &texts(&["", "b"]));
}

#[test]
fn reset_empties_the_selected_task() {
    let mut app = app_of(&["a", "b"], &["x"]);
    select(&mut app, 2);
    app.reset_task();
    assert_eq!(app.get_complete_tasks(), &texts(&[""]));
    assert_eq!(app.get_incomplete_tasks(), &texts(&["a", "b"]));
}

#[test]
fn yank_and_paste() {
    let mut app = app_of(&["a", "b"], &["x"]);
    select(&mut app, 2);
    app.yank_task();
    assert_eq!(app.get_action(), "Yanked task");
    select(&mut app, 0);
    app.paste_task_below();
    assert_eq!(app.get_incomplete_tasks(), &texts(&["a", "x", "b"]));
    assert_eq!(app.get_selected(), Some(1));
    assert_eq!(app.get_action(), "Pasted task below");
    // The buffer is read, not emptied.
    app.paste_task_above();
    assert_eq!(app.get_incomplete_tasks(), &texts(&["a", "x", "x", "b"]));
    assert_eq!(app.get_selected(), Some(1));
    assert_eq!(app.get_action(), "Pasted task above");
    // A later yank overwrites it.
    select(&mut app, 3);
    app.yank_task();
    select(&mut app, 0);
    app.paste_task_above();
    assert_eq!(app.get_incomplete_tasks(), &texts(&["b", "a", "x", "x", "b"]));
}

#[test]
fn the_yank_buffer_is_a_snapshot() {
    let mut app = app_of(&["a"], &[]);
    app.yank_task();
    app.append_to_task('!');
    app.paste_task_below();
    assert_eq!(app.get_incomplete_tasks(), &texts(&["a!", "a"]));
}

#[test]
fn modes_help_and_quit() {
    let mut app = app_of(&["a"], &[]);
    app.enter_insert_mode();
    assert_eq!(app.get_mode(), AppMode::Insert);
    app.exit_insert_mode();
    assert_eq!(app.get_mode(), AppMode::Normal);
    assert_eq!(app.get_action(), "Saving todo");
    app.toggle_help();
    assert!(app.is_help_visible());
    app.toggle_help();
    assert!(!app.is_help_visible());
    app.quit();
    assert!(!app.is_running());
}

#[test]
fn the_action_message_is_cleared_by_ticks() {
    let mut app = app_of(&["a"], &[]);
    app.toggle_task();
    for _ in 0..19 {
        app.tick();
        assert_eq!(app.get_action(), "Toggled task");
    }
    app.tick();
    assert_eq!(app.get_action(), "");
}

#[test]
fn leaving_insert_mode_saves_the_store() {
    let disk = Disk::new();
    let mut app = App::new(Box::new(disk.clone()));
    app.add_task_below();
    app.enter_insert_mode();
    app.append_to_task('h');
    app.append_to_task('i');
    assert_eq!(*disk.saved.borrow(), None);
    app.exit_insert_mode();
    assert_eq!(app.get_action(), "Saving todo");
    assert_eq!(*disk.saved.borrow(), Some((texts(&["hi"]), texts(&[]))));
}

#[test]
fn a_failed_save_is_shown() {
    let disk = Disk::holding(&["a"], &[]);
    let mut app = App::new(Box::new(disk.clone()));
    *disk.fail.borrow_mut() = true;
    app.enter_insert_mode();
    app.append_to_task('b');
    app.exit_insert_mode();
    assert_eq!(app.get_mode(), AppMode::Normal);
    assert_eq!(app.get_action(), "Error saving todo: disk full");
    assert_eq!(*disk.saved.borrow(), Some((texts(&["a"]), texts(&[]))));
    assert_eq!(app.get_incomplete_tasks(), &texts(&["ab"]));

    app.toggle_help();
    app.save();
    assert_eq!(app.get_action(), "Error saving todo: disk full");
    *disk.fail.borrow_mut() = false;
    app.toggle_task();
    app.save();
    assert_eq!(app.get_action(), "Toggled task");
    assert_eq!(*disk.saved.borrow(), Some((texts(&[]), texts(&["ab"]))));
}

#[test]
fn report_save_shows_a_failure_only() {
    let mut app = app_of(&["a"], &[]);
    app.yank_task();
    app.report_save(Ok(()));
    assert_eq!(app.get_action(), "Yanked task");
    app.report_save(Err(PersistenceError { message: "read-only".to_string() }));
    assert_eq!(app.get_action(), "Error saving todo: read-only");
}
