//! The application state behind the key dispatcher: the task store, the
//! selection, the yank buffer, the mode and the transient action message.

use vstd::prelude::*;
use vstd::string::StringExecFns;
use crate::action_display::{ActionDisplay, ACTION_RESET_TICKS};
use crate::todo::{Todo, TodoView};
use crate::todo_serializer::{PersistenceError, TodoSerializer};

verus! {

/// What the dispatcher's operations return. None of them fails: failures of
/// the storage strategy are shown in the action message.
pub type AppResult<T> = Result<T, PersistenceError>;

/// The mode that decides which key table is active.
#[derive(Clone, Copy, Debug, PartialEq, Eq, Structural)]
pub enum AppMode {
    /// Keys are commands.
    Normal,
    /// Character keys are typed into the selected task.
    Insert,
}

impl AppMode {
    /// The name of the mode as it is shown to the user.
    pub open spec fn name(self) -> Seq<char> {
        match self {
            AppMode::Normal => "Normal"@,
            AppMode::Insert => "Insert"@,
        }
    }

    /// The name of the mode as it is shown to the user.
    pub fn to_string(&self) -> (name: String)
        ensures
            name@ == self.name(),
    {
        match self {
            AppMode::Normal => "Normal".to_owned(),
            AppMode::Insert => "Insert".to_owned(),
        }
    }
}

/// The text that a failed save or load leaves, if it failed.
pub open spec fn failure_of(outcome: Result<(), PersistenceError>) -> Option<Seq<char>> {
    match outcome {
        Ok(_) => None,
        Err(e) => Some(e.message@),
    }
}

/// The mathematical state of the application.
#[verifier::ext_equal]
pub struct AppView {
    /// Whether the event loop is to go on.
    pub running: bool,
    /// Whether the help is shown.
    pub help_visible: bool,
    /// The mode whose key table is active.
    pub mode: AppMode,
    /// The two task lists.
    pub todo: TodoView,
    /// The logical index of the selected task, if one is selected.
    pub selected: Option<int>,
    /// The text that was yanked last, if any was.
    pub yank_buffer: Option<Seq<char>>,
    /// The action message; empty when there is none.
    pub action: Seq<char>,
    /// The ticks counted since the action message was set or last cleared.
    pub action_ticks: nat,
}

impl AppView {
    /// The selection invariant: a selected index addresses a task, or is 0
    /// while the store is empty.
    pub open spec fn wf(self) -> bool {
        &&& self.action_ticks < ACTION_RESET_TICKS
        &&& self.selected matches Some(i) ==> 0 <= i && (i < self.todo.len() || i == 0)
    }

    /// Whether a task is selected, that is, the selection addresses one.
    pub open spec fn has_selected_task(self) -> bool {
        self.selected matches Some(i) && 0 <= i < self.todo.len()
    }

    /// The state with `action` as its fresh action message.
    pub open spec fn with_action(self, action: Seq<char>) -> AppView {
        AppView { action, action_ticks: 0, ..self }
    }

    /// The state after a tick: the action message is cleared, and its count
    /// starts afresh, exactly when the count reaches the threshold.
    pub open spec fn tick(self) -> AppView {
        if self.action_ticks + 1 >= ACTION_RESET_TICKS {
            AppView { action: Seq::empty(), action_ticks: 0, ..self }
        } else {
            AppView { action_ticks: self.action_ticks + 1, ..self }
        }
    }

    /// The event loop is asked to stop.
    pub open spec fn quit(self) -> AppView {
        AppView { running: false, ..self }
    }

    /// The help shown where it was hidden, and hidden where it was shown.
    pub open spec fn toggle_help(self) -> AppView {
        AppView { help_visible: !self.help_visible, ..self }
    }

    /// In insert mode.
    pub open spec fn enter_insert_mode(self) -> AppView {
        AppView { mode: AppMode::Insert, ..self }
    }

    /// The position of a task inserted above the selection: the selected
    /// index, but no further down than the end of the incomplete list; the
    /// top where nothing is selected.
    pub open spec fn index_above(self) -> int {
        match self.selected {
            Some(i) => if i < self.todo.incomplete.len() {
                i
            } else {
                self.todo.incomplete.len() as int
            },
            None => 0,
        }
    }

    /// The position of a task inserted below the selection: one past the
    /// selected index, but no further down than the end of the incomplete
    /// list; that end where nothing is selected, and the top of an empty
    /// store.
    pub open spec fn index_below(self) -> int {
        if self.todo.len() == 0 {
            0
        } else {
            match self.selected {
                Some(i) => if i < self.todo.incomplete.len() {
                    i + 1
                } else {
                    self.todo.incomplete.len() as int
                },
                None => self.todo.incomplete.len() as int,
            }
        }
    }

    /// `text` inserted as an incomplete task at `index`, which becomes the
    /// selection.
    pub open spec fn insert_selected(self, index: int, text: Seq<char>) -> AppView {
        AppView { selected: Some(index), todo: self.todo.add(index, text), ..self }
    }

    /// An empty task added above the selection, and selected.
    pub open spec fn add_task_above(self) -> AppView {
        self.with_action("Added task above"@).insert_selected(self.index_above(), Seq::empty())
    }

    /// An empty task added below the selection, and selected.
    pub open spec fn add_task_below(self) -> AppView {
        self.with_action("Added task below"@).insert_selected(self.index_below(), Seq::empty())
    }

    /// The yanked text added as a task above the selection, and selected;
    /// no task is added while nothing was yanked.
    pub open spec fn paste_task_above(self) -> AppView {
        let noted = self.with_action("Pasted task above"@);
        match self.yank_buffer {
            Some(text) => noted.insert_selected(self.index_above(), text),
            None => noted,
        }
    }

    /// The yanked text added as a task below the selection, and selected;
    /// no task is added while nothing was yanked.
    pub open spec fn paste_task_below(self) -> AppView {
        let noted = self.with_action("Pasted task below"@);
        match self.yank_buffer {
            Some(text) => noted.insert_selected(self.index_below(), text),
            None => noted,
        }
    }

    /// The selection after the task at `index` was deleted and `remaining`
    /// tasks are left: the same index while it still addresses a task, else
    /// the last task, else nothing.
    pub open spec fn selection_after_delete(index: int, remaining: nat) -> Option<int> {
        if index < remaining {
            Some(index)
        } else if remaining == 0 {
            None
        } else {
            Some(remaining - 1)
        }
    }

    /// The selected task deleted, and the selection moved as
    /// [`Self::selection_after_delete`] says; no task is deleted where none
    /// is selected.
    pub open spec fn delete_task(self) -> AppView {
        let noted = self.with_action("Deleted task"@);
        match self.selected {
            Some(i) if self.has_selected_task() => AppView {
                todo: self.todo.delete(i),
                selected: Self::selection_after_delete(i, (self.todo.len() - 1) as nat),
                ..noted
            },
            _ => noted,
        }
    }

    /// The selected task moved to the other list. The selection stays at
    /// its index.
    pub open spec fn toggle_task(self) -> AppView {
        let noted = self.with_action("Toggled task"@);
        match self.selected {
            Some(i) if self.has_selected_task() => AppView { todo: self.todo.toggle(i), ..noted },
            _ => noted,
        }
    }

    /// The text of the selected task copied into the yank buffer, which
    /// keeps what it held where no task is selected.
    pub open spec fn yank_task(self) -> AppView {
        let noted = self.with_action("Yanked task"@);
        match self.selected {
            Some(i) if self.has_selected_task() => AppView {
                yank_buffer: Some(self.todo.task_at(i)),
                ..noted
            },
            _ => noted,
        }
    }

    /// The selected task's text replaced by `text`, where a task is
    /// selected.
    pub open spec fn edit_selected(self, text: Seq<char>) -> AppView {
        match self.selected {
            Some(i) if self.has_selected_task() => AppView {
                todo: self.todo.edit(i, text),
                ..self
            },
            _ => self,
        }
    }

    /// The text of the selected task, where a task is selected.
    pub open spec fn selected_text(self) -> Seq<char> {
        self.todo.task_at(self.selected->0)
    }

    /// `c` typed at the end of the selected task.
    pub open spec fn append_to_task(self, c: char) -> AppView {
        self.edit_selected(self.selected_text().push(c))
    }

    /// The last character of the selected task erased; an empty text stays
    /// empty.
    pub open spec fn pop_from_task(self) -> AppView {
        if self.selected_text().len() > 0 {
            self.edit_selected(self.selected_text().drop_last())
        } else {
            self.edit_selected(self.selected_text())
        }
    }

    /// The text of the selected task emptied.
    pub open spec fn reset_task(self) -> AppView {
        self.edit_selected(Seq::empty())
    }

    /// Down by one, and from the last task round to the first.
    pub open spec fn navigate_down(self) -> AppView {
        match self.selected {
            Some(i) => AppView {
                selected: Some(
                    if i + 1 >= self.todo.len() {
                        0
                    } else {
                        i + 1
                    },
                ),
                ..self
            },
            None => self,
        }
    }

    /// Up by one, and from the first task round to the last.
    pub open spec fn navigate_up(self) -> AppView {
        match self.selected {
            Some(i) => AppView {
                selected: Some(
                    if i > 0 {
                        i - 1
                    } else if self.todo.len() > 0 {
                        self.todo.len() - 1
                    } else {
                        0
                    },
                ),
                ..self
            },
            None => self,
        }
    }

    /// The first index selected, whatever was selected before.
    pub open spec fn navigate_top(self) -> AppView {
        AppView { selected: Some(0), ..self }
    }

    /// The last task selected; nothing in an empty store.
    pub open spec fn navigate_bottom(self) -> AppView {
        AppView {
            selected: if self.todo.len() == 0 {
                None
            } else {
                Some(self.todo.len() - 1)
            },
            ..self
        }
    }

    /// The state after a save that ended with `failure`: a failure is shown
    /// as the action message, a success leaves no trace.
    pub open spec fn saved(self, failure: Option<Seq<char>>) -> AppView {
        match failure {
            Some(message) => self.with_action("Error saving todo: "@ + message),
            None => self,
        }
    }

    /// Back in normal mode, with the save that this triggers ended with
    /// `failure`.
    pub open spec fn exit_insert_mode(self, failure: Option<Seq<char>>) -> AppView {
        AppView { mode: AppMode::Normal, ..self.with_action("Saving todo"@) }.saved(failure)
    }

    /// The state in which the application starts on the store `todo`, whose
    /// load ended with `failure`: a failure is shown and leaves nothing
    /// selected; after a success the first index is selected.
    pub open spec fn started(todo: TodoView, failure: Option<Seq<char>>) -> AppView {
        AppView {
            running: true,
            help_visible: false,
            mode: AppMode::Normal,
            todo,
            selected: match failure {
                Some(_) => None,
                None => Some(0),
            },
            yank_buffer: None,
            action: match failure {
                Some(message) => "Error loading todo: "@ + message,
                None => Seq::empty(),
            },
            action_ticks: 0,
        }
    }
}

/// The application state.
pub struct App {
    running: bool,
    show_help: bool,
    todo: Todo,
    action_display: ActionDisplay,
    selected: Option<usize>,
    yank_buffer: Option<String>,
    mode: AppMode,
}

impl View for App {
    type V = AppView;

    closed spec fn view(&self) -> AppView {
        AppView {
            running: self.running,
            help_visible: self.show_help,
            mode: self.mode,
            todo: self.todo@,
            selected: match self.selected {
                Some(i) => Some(i as int),
                None => None,
            },
            yank_buffer: match self.yank_buffer {
                Some(text) => Some(text@),
                None => None,
            },
            action: self.action_display.message(),
            action_ticks: self.action_display.ticks(),
        }
    }
}

impl App {
    /// Well-formedness: the parts are well-formed and the selection
    /// invariant of [`AppView::wf`] holds. Every constructor establishes it
    /// and every method keeps it.
    pub closed spec fn wf(&self) -> bool {
        &&& self.parts_wf()
        &&& self@.wf()
    }

    /// The store and the action display are well-formed.
    spec fn parts_wf(&self) -> bool {
        &&& self.todo.wf()
        &&& self.action_display.wf()
        &&& self.action_display.threshold() == ACTION_RESET_TICKS
    }

    /// A well-formed application has a well-formed state.
    pub proof fn lemma_wf_view(&self)
        requires
            self.wf(),
        ensures
            self@.wf(),
    {
    }

    /// Whether the store was built with a storage strategy.
    pub closed spec fn has_serializer(&self) -> bool {
        self.todo.has_serializer()
    }

    /// The application on an empty store that saves to and loads from
    /// `serializer`, after a first load from it.
    pub fn new(serializer: Box<dyn TodoSerializer>) -> (app: App)
        ensures
            app.wf(),
            app.has_serializer(),
            exists|failure: Option<Seq<char>>|
                app@ == #[trigger] AppView::started(app@.todo, failure),
            app@.selected is None ==> app@.todo == TodoView::empty(),
    {
        let mut todo = Todo::with_serializer(serializer);
        let loaded = todo.load();
        let ghost failure = failure_of(loaded);
        let app = App::started(todo, loaded);
        assert(app@ == AppView::started(app@.todo, failure));
        app
    }

    /// The application on the store `todo`, whose load ended with `loaded`.
    pub fn started(todo: Todo, loaded: Result<(), PersistenceError>) -> (app: App)
        requires
            todo.wf(),
        ensures
            app.wf(),
            app.has_serializer() == todo.has_serializer(),
            app@ == AppView::started(todo@, failure_of(loaded)),
    {
        let mut action_display = ActionDisplay::new();
        let selected = match loaded {
            Err(e) => {
                let mut message = "Error loading todo: ".to_owned();
                message.append(e.message.as_str());
                action_display.set(message.as_str());
                None
            },
            Ok(_) => Some(0),
        };
        App {
            running: true,
            show_help: false,
            todo,
            action_display,
            selected,
            yank_buffer: None,
            mode: AppMode::Normal,
        }
    }

    /// Advances the timeout of the action message by one tick.
    pub fn tick(&mut self)
        requires
            old(self).wf(),
        ensures
            final(self).wf(),
            final(self).has_serializer() == old(self).has_serializer(),
            final(self)@ == old(self)@.tick(),
    {
        self.action_display.tick();
    }

    /// Asks the event loop to stop.
    pub fn quit(&mut self)
        requires
            old(self).wf(),
        ensures
            final(self).wf(),
            final(self).has_serializer() == old(self).has_serializer(),
            final(self)@ == old(self)@.quit(),
    {
        self.running = false;
    }

    /// Shows or hides the help.
    pub fn toggle_help(&mut self)
        requires
            old(self).wf(),
        ensures
            final(self).wf(),
            final(self).has_serializer() == old(self).has_serializer(),
            final(self)@ == old(self)@.toggle_help(),
    {
        self.show_help = !self.show_help;
    }

    /// Switches to insert mode.
    pub fn enter_insert_mode(&mut self)
        requires
            old(self).wf(),
        ensures
            final(self).wf(),
            final(self).has_serializer() == old(self).has_serializer(),
            final(self)@ == old(self)@.enter_insert_mode(),
    {
        self.mode = AppMode::Insert;
    }

    /// The selected index, where it addresses a task.
    fn selected_task(&self) -> (index: Option<usize>)
        requires
            self.wf(),
        ensures
            match index {
                Some(i) => self@.has_selected_task() && self@.selected == Some(i as int),
                None => !self@.has_selected_task(),
            },
    {
        match self.selected {
            Some(i) => if i < self.todo.len() {
                Some(i)
            } else {
                None
            },
            None => None,
        }
    }

    /// A copy of the text of the task at the logical index `index`.
    fn task_text(&self, index: usize) -> (text: String)
        requires
            self.wf(),
            index < self@.todo.len(),
        ensures
            text@ == self@.todo.task_at(index as int),
    {
        let incomplete = self.todo.get_incomplete_tasks();
        if index < incomplete.len() {
            incomplete[index].clone()
        } else {
            self.todo.get_complete_tasks()[index - incomplete.len()].clone()
        }
    }

    /// The position at which a task goes in above the selection.
    fn index_above(&self) -> (index: usize)
        requires
            self.wf(),
        ensures
            index == self@.index_above(),
            index <= self@.todo.incomplete.len(),
    {
        let end = self.todo.get_incomplete_tasks().len();
        match self.selected {
            Some(i) => if i < end {
                i
            } else {
                end
            },
            None => 0,
        }
    }

    /// The position at which a task goes in below the selection.
    fn index_below(&self) -> (index: usize)
        requires
            self.wf(),
        ensures
            index == self@.index_below(),
            index <= self@.todo.incomplete.len(),
    {
        let end = self.todo.get_incomplete_tasks().len();
        if self.todo.is_empty() {
            0
        } else {
            match self.selected {
                Some(i) => if i < end {
                    i + 1
                } else {
                    end
                },
                None => end,
            }
        }
    }

    /// Adds an empty task above the selection and selects it.
    pub fn add_task_above(&mut self)
        requires
            old(self).wf(),
            old(self)@.todo.len() < usize::MAX,
        ensures
            final(self).wf(),
            final(self).has_serializer() == old(self).has_serializer(),
            final(self)@ == old(self)@.add_task_above(),
    {
        self.action_display.set("Added task above");
        let new_task_index = self.index_above();
        self.selected = Some(new_task_index);
        self.todo.add_task(new_task_index, String::new());
    }

    /// Adds an empty task below the selection and selects it.
    pub fn add_task_below(&mut self)
        requires
            old(self).wf(),
            old(self)@.todo.len() < usize::MAX,
        ensures
            final(self).wf(),
            final(self).has_serializer() == old(self).has_serializer(),
            final(self)@ == old(self)@.add_task_below(),
    {
        self.action_display.set("Added task below");
        let new_task_index = self.index_below();
        self.selected = Some(new_task_index);
        self.todo.add_task(new_task_index, String::new());
    }

    /// Deletes the selected task. The selection stays where it is while it
    /// still addresses a task; else it moves to the last task, and goes away
    /// with the last task of the store.
    pub fn delete_task(&mut self)
        requires
            old(self).wf(),
        ensures
            final(self).wf(),
            final(self).has_serializer() == old(self).has_serializer(),
            final(self)@ == old(self)@.delete_task(),
    {
        self.action_display.set("Deleted task");

        if self.todo.is_empty() {
            return;
        }
        if let Some(i) = self.selected {
            self.todo.delete_task(i);
            if i >= self.todo.len() {
                self.select_last_task();
            }
        }
    }

    /// Leaves insert mode and saves the store. A failed save is shown as
    /// the action message.
    pub fn exit_insert_mode(&mut self)
        requires
            old(self).wf(),
        ensures
            final(self).wf(),
            final(self).has_serializer() == old(self).has_serializer(),
            exists|failure: Option<Seq<char>>|
                final(self)@ == #[trigger] old(self)@.exit_insert_mode(failure),
            !old(self).has_serializer() ==> final(self)@ == old(self)@.exit_insert_mode(None),
    {
        self.action_display.set("Saving todo");
        self.mode = AppMode::Normal;
        let ghost noted = self@;
        self.save();
        proof {
            let failure = choose|failure: Option<Seq<char>>| self@ == #[trigger] noted.saved(failure);
            assert(self@ == old(self)@.exit_insert_mode(failure));
        }
    }

    /// Types `c` at the end of the selected task.
    pub fn append_to_task(&mut self, c: char)
        requires
            old(self).wf(),
        ensures
            final(self).wf(),
            final(self).has_serializer() == old(self).has_serializer(),
            final(self)@ == old(self)@.append_to_task(c),
    {
        if let Some(i) = self.selected_task() {
            let mut task = self.task_text(i);
            task.push(c);
            self.todo.edit_task(i, task);
        }
    }

    /// Erases the last character of the selected task, if it has one.
    pub fn pop_from_task(&mut self)
        requires
            old(self).wf(),
        ensures
            final(self).wf(),
            final(self).has_serializer() == old(self).has_serializer(),
            final(self)@ == old(self)@.pop_from_task(),
    {
        if let Some(i) = self.selected_task() {
            let mut task = self.task_text(i);
            task.pop();
            self.todo.edit_task(i, task);
        }
    }

    /// Empties the text of the selected task.
    pub fn reset_task(&mut self)
        requires
            old(self).wf(),
        ensures
            final(self).wf(),
            final(self).has_serializer() == old(self).has_serializer(),
            final(self)@ == old(self)@.reset_task(),
    {
        if let Some(i) = self.selected_task() {
            self.todo.edit_task(i, String::new());
        }
    }

    /// Moves the selected task to the other list.
    pub fn toggle_task(&mut self)
        requires
            old(self).wf(),
        ensures
            final(self).wf(),
            final(self).has_serializer() == old(self).has_serializer(),
            final(self)@ == old(self)@.toggle_task(),
    {
        self.action_display.set("Toggled task");

        match self.selected_task() {
            Some(i) => {
                self.todo.toggle_task(i);
            },
            None => {},
        }
    }

    /// Copies the text of the selected task into the yank buffer.
    pub fn yank_task(&mut self)
        requires
            old(self).wf(),
        ensures
            final(self).wf(),
            final(self).has_serializer() == old(self).has_serializer(),
            final(self)@ == old(self)@.yank_task(),
    {
        self.action_display.set("Yanked task");

        if let Some(i) = self.selected_task() {
            let task = self.task_text(i);
            self.yank_buffer = Some(task);
        }
    }

    /// Inserts the yanked text as a task above the selection and selects it.
    /// The yank buffer keeps its text.
    pub fn paste_task_above(&mut self)
        requires
            old(self).wf(),
            old(self)@.yank_buffer is Some ==> old(self)@.todo.len() < usize::MAX,
        ensures
            final(self).wf(),
            final(self).has_serializer() == old(self).has_serializer(),
            final(self)@ == old(self)@.paste_task_above(),
    {
        self.action_display.set("Pasted task above");

        let task = match &self.yank_buffer {
            Some(text) => text.clone(),
            None => {
                return;
            },
        };
        let new_task_index = self.index_above();
        self.selected = Some(new_task_index);
        self.todo.add_task(new_task_index, task);
    }

    /// Inserts the yanked text as a task below the selection and selects it.
    /// The yank buffer keeps its text.
    pub fn paste_task_below(&mut self)
        requires
            old(self).wf(),
            old(self)@.yank_buffer is Some ==> old(self)@.todo.len() < usize::MAX,
        ensures
            final(self).wf(),
            final(self).has_serializer() == old(self).has_serializer(),
            final(self)@ == old(self)@.paste_task_below(),
    {
        self.action_display.set("Pasted task below");

        let task = match &self.yank_buffer {
            Some(text) => text.clone(),
            None => {
                return;
            },
        };
        let new_task_index = self.index_below();
        self.selected = Some(new_task_index);
        self.todo.add_task(new_task_index, task);
    }

    /// Moves the selection down by one, and from the last task round to
    /// the first.
    pub fn navigate_down(&mut self)
        requires
            old(self).wf(),
        ensures
            final(self).wf(),
            final(self).has_serializer() == old(self).has_serializer(),
            final(self)@ == old(self)@.navigate_down(),
    {
        if let Some(i) = self.selected {
            let len = self.todo.len();
            let next_index = if len == 0 || i >= len - 1 {
                0
            } else {
                i + 1
            };
            self.selected = Some(next_index);
        }
    }

    /// Moves the selection up by one, and from the first task round to the
    /// last.
    pub fn navigate_up(&mut self)
        requires
            old(self).wf(),
        ensures
            final(self).wf(),
            final(self).has_serializer() == old(self).has_serializer(),
            final(self)@ == old(self)@.navigate_up(),
    {
        if let Some(i) = self.selected {
            let len = self.todo.len();
            let next_index = if i > 0 {
                i - 1
            } else if len > 0 {
                len - 1
            } else {
                0
            };
            self.selected = Some(next_index);
        }
    }

    /// Selects the first index.
    pub fn navigate_top(&mut self)
        requires
            old(self).wf(),
        ensures
            final(self).wf(),
            final(self).has_serializer() == old(self).has_serializer(),
            final(self)@ == old(self)@.navigate_top(),
    {
        self.selected = Some(0);
    }

    /// Selects the last task; nothing in an empty store.
    pub fn navigate_bottom(&mut self)
        requires
            old(self).wf(),
        ensures
            final(self).wf(),
            final(self).has_serializer() == old(self).has_serializer(),
            final(self)@ == old(self)@.navigate_bottom(),
    {
        self.select_last_task();
    }

    /// Whether the help is shown.
    pub fn is_help_visible(&self) -> (visible: bool)
        ensures
            visible == self@.help_visible,
    {
        self.show_help
    }

    /// Whether the event loop is to go on.
    pub fn is_running(&self) -> (running: bool)
        ensures
            running == self@.running,
    {
        self.running
    }

    /// Whether the store holds no task at all.
    pub fn is_todo_empty(&self) -> (empty: bool)
        requires
            self.wf(),
        ensures
            empty == (self@.todo.len() == 0),
    {
        self.todo.is_empty()
    }

    /// The logical index of the selection, if there is one.
    pub fn get_selected(&self) -> (selected: Option<usize>)
        ensures
            self@.selected == match selected {
                Some(i) => Some(i as int),
                None => None,
            },
    {
        self.selected
    }

    /// The complete tasks, in order.
    pub fn get_complete_tasks(&self) -> (tasks: &Vec<String>)
        ensures
            tasks.deep_view() == self@.todo.complete,
    {
        self.todo.get_complete_tasks()
    }

    /// The incomplete tasks, in order.
    pub fn get_incomplete_tasks(&self) -> (tasks: &Vec<String>)
        ensures
            tasks.deep_view() == self@.todo.incomplete,
    {
        self.todo.get_incomplete_tasks()
    }

    /// The current mode.
    pub fn get_mode(&self) -> (mode: AppMode)
        ensures
            mode == self@.mode,
    {
        self.mode
    }

    /// The action message; empty when there is none.
    pub fn get_action(&self) -> (action: &str)
        ensures
            action@ == self@.action,
    {
        self.action_display.get()
    }

    /// Takes in how a save ended: a failure becomes the action message.
    pub fn report_save(&mut self, outcome: Result<(), PersistenceError>)
        requires
            old(self).wf(),
        ensures
            final(self).wf(),
            final(self).has_serializer() == old(self).has_serializer(),
            final(self)@ == old(self)@.saved(failure_of(outcome)),
    {
        if let Err(e) = outcome {
            let mut message = "Error saving todo: ".to_owned();
            message.append(e.message.as_str());
            self.action_display.set(message.as_str());
        }
    }

    /// Saves the store through its storage strategy. Whatever the strategy
    /// answers goes through [`Self::report_save`]; without a strategy
    /// nothing changes.
    pub fn save(&mut self)
        requires
            old(self).wf(),
        ensures
            final(self).wf(),
            final(self).has_serializer() == old(self).has_serializer(),
            exists|failure: Option<Seq<char>>| final(self)@ == #[trigger] old(self)@.saved(failure),
            !old(self).has_serializer() ==> final(self)@ == old(self)@,
    {
        let outcome = self.todo.save();
        let ghost failure = failure_of(outcome);
        self.report_save(outcome);
        assert(self@ == old(self)@.saved(failure));
    }

    /// Selects the last task; nothing in an empty store.
    fn select_last_task(&mut self)
        requires
            old(self).parts_wf(),
        ensures
            final(self).wf(),
            final(self).has_serializer() == old(self).has_serializer(),
            final(self)@ == old(self)@.navigate_bottom(),
    {
        let selected = match self.todo.len() {
            0 => None,
            n => Some(n - 1),
        };
        self.selected = selected;
    }
}

} // verus!
