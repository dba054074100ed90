//! The key dispatcher: the key tables of the two modes, the chords, and
//! the routing of each tick and key event to the application.

use vstd::prelude::*;
use crate::app::{App, AppMode, AppResult, AppView};
use crate::key_event::{KeyCode, KeyEvent, KeyEventKind, CONTROL};
use crate::key_sequencer::KeySequencer;

verus! {

/// What a chord stands for.
#[derive(Clone, Copy, Debug, PartialEq, Eq, Structural)]
pub enum KeySequenceEvent {
    /// Select the first index.
    NavigateTop,
}

/// What a single key stands for.
#[derive(Clone, Copy, Debug, PartialEq, Eq, Structural)]
pub enum Command {
    Quit,
    NavigateDown,
    NavigateUp,
    ToggleHelp,
    /// Add an empty task below the selection and edit it.
    AddTaskBelow,
    /// Add an empty task above the selection and edit it.
    AddTaskAbove,
    ToggleTask,
    NavigateBottom,
    DeleteTask,
    /// Empty the selected task and edit it.
    ChangeTask,
    /// Edit the selected task.
    EnterInsertMode,
    YankTask,
    PasteTaskBelow,
    PasteTaskAbove,
    /// Leave insert mode and save.
    ExitInsertMode,
    /// Type the character at the end of the selected task.
    AppendToTask(char),
    /// Erase the last character of the selected task.
    PopFromTask,
}

/// Whether `key_event` is Control held, alone, with the letter `c` in
/// either case.
pub open spec fn is_control_c(key_event: KeyEvent) -> bool {
    &&& key_event.modifiers == CONTROL
    &&& key_event.code == KeyCode::Char('c') || key_event.code == KeyCode::Char('C')
}

/// The key table of normal mode.
///
/// | key | command |
/// |---|---|
/// | Control-c, Esc, `q` | quit |
/// | `j`, `k` | navigate down, up |
/// | `G` | navigate to the bottom |
/// | `h` | toggle the help |
/// | `o`, `O` | add a task below, above |
/// | `x` | toggle the task |
/// | `d` | delete the task |
/// | `c` | change the task |
/// | `a` | edit the task |
/// | `y` | yank the task |
/// | `p`, `P` | paste below, above |
///
/// But for Control-c the modifiers are not looked at.
pub open spec fn normal_command(key_event: KeyEvent) -> Option<Command> {
    if is_control_c(key_event) {
        Some(Command::Quit)
    } else {
        match key_event.code {
            KeyCode::Esc => Some(Command::Quit),
            KeyCode::Char(c) => if c == 'q' {
                Some(Command::Quit)
            } else if c == 'j' {
                Some(Command::NavigateDown)
            } else if c == 'k' {
                Some(Command::NavigateUp)
            } else if c == 'h' {
                Some(Command::ToggleHelp)
            } else if c == 'o' {
                Some(Command::AddTaskBelow)
            } else if c == 'O' {
                Some(Command::AddTaskAbove)
            } else if c == 'x' {
                Some(Command::ToggleTask)
            } else if c == 'G' {
                Some(Command::NavigateBottom)
            } else if c == 'd' {
                Some(Command::DeleteTask)
            } else if c == 'c' {
                Some(Command::ChangeTask)
            } else if c == 'a' {
                Some(Command::EnterInsertMode)
            } else if c == 'y' {
                Some(Command::YankTask)
            } else if c == 'p' {
                Some(Command::PasteTaskBelow)
            } else if c == 'P' {
                Some(Command::PasteTaskAbove)
            } else {
                None
            },
            _ => None,
        }
    }
}

/// The key table of insert mode: Control-c and Esc leave the mode, any
/// other character key types its character, Backspace erases one.
pub open spec fn insert_command(key_event: KeyEvent) -> Option<Command> {
    if is_control_c(key_event) {
        Some(Command::ExitInsertMode)
    } else {
        match key_event.code {
            KeyCode::Esc => Some(Command::ExitInsertMode),
            KeyCode::Char(c) => Some(Command::AppendToTask(c)),
            KeyCode::Backspace => Some(Command::PopFromTask),
            _ => None,
        }
    }
}

/// What `key_event` stands for in `mode`. Only key presses stand for
/// anything.
pub open spec fn bound_command(key_event: KeyEvent, mode: AppMode) -> Option<Command> {
    if key_event.kind != KeyEventKind::Press {
        None
    } else {
        match mode {
            AppMode::Normal => normal_command(key_event),
            AppMode::Insert => insert_command(key_event),
        }
    }
}

/// Whether running `command` in the state `app` inserts a task.
pub open spec fn inserts_task(app: AppView, command: Option<Command>) -> bool {
    match command {
        Some(Command::AddTaskBelow) | Some(Command::AddTaskAbove) => true,
        Some(Command::PasteTaskBelow) | Some(Command::PasteTaskAbove) => app.yank_buffer is Some,
        _ => false,
    }
}

/// The state after `command` ran in the state `app`. `failure` is how the
/// save ended that leaving insert mode triggers; no other command looks at
/// it.
pub open spec fn after_command(app: AppView, command: Command, failure: Option<Seq<char>>) -> AppView {
    match command {
        Command::Quit => app.quit(),
        Command::NavigateDown => app.navigate_down(),
        Command::NavigateUp => app.navigate_up(),
        Command::ToggleHelp => app.toggle_help(),
        Command::AddTaskBelow => app.add_task_below().enter_insert_mode(),
        Command::AddTaskAbove => app.add_task_above().enter_insert_mode(),
        Command::ToggleTask => app.toggle_task(),
        Command::NavigateBottom => app.navigate_bottom(),
        Command::DeleteTask => app.delete_task(),
        Command::ChangeTask => app.reset_task().enter_insert_mode(),
        Command::EnterInsertMode => app.enter_insert_mode(),
        Command::YankTask => app.yank_task(),
        Command::PasteTaskBelow => app.paste_task_below(),
        Command::PasteTaskAbove => app.paste_task_above(),
        Command::ExitInsertMode => app.exit_insert_mode(failure),
        Command::AppendToTask(c) => app.append_to_task(c),
        Command::PopFromTask => app.pop_from_task(),
    }
}

/// The state after `key_event` was matched against the key table of the
/// mode that `app` is in: the bound command has run, and an unbound key has
/// changed nothing.
pub open spec fn after_key(app: AppView, key_event: KeyEvent, failure: Option<Seq<char>>) -> AppView {
    match bound_command(key_event, app.mode) {
        Some(command) => after_command(app, command, failure),
        None => app,
    }
}

/// The state after the chord event `event` ran in the state `app`.
pub open spec fn after_sequence(app: AppView, event: KeySequenceEvent) -> AppView {
    match event {
        KeySequenceEvent::NavigateTop => app.navigate_top(),
    }
}

/// The chord `g`, `g`.
pub open spec fn navigate_top_chord() -> (KeyEvent, KeyEvent) {
    (KeyEvent::press(KeyCode::Char('g')), KeyEvent::press(KeyCode::Char('g')))
}

/// Binds the chords of the application: `g`, `g` selects the first index.
pub fn setup_key_sequences(key_sequencer: &mut KeySequencer<KeySequenceEvent>)
    requires
        old(key_sequencer).wf(),
    ensures
        final(key_sequencer).wf(),
        final(key_sequencer)@ == old(key_sequencer)@.register(
            navigate_top_chord().0,
            navigate_top_chord().1,
            KeySequenceEvent::NavigateTop,
        ),
{
    key_sequencer.register(
        KeyEvent::from(KeyCode::Char('g')),
        KeyEvent::from(KeyCode::Char('g')),
        KeySequenceEvent::NavigateTop,
    );
}

/// Runs what a completed chord stands for.
pub fn handle_normal_mode_sequence_key_events(
    key_sequence_event: KeySequenceEvent,
    app: &mut App,
) -> (result: AppResult<()>)
    requires
        old(app).wf(),
    ensures
        result is Ok,
        final(app).wf(),
        final(app).has_serializer() == old(app).has_serializer(),
        final(app)@ == after_sequence(old(app)@, key_sequence_event),
{
    match key_sequence_event {
        KeySequenceEvent::NavigateTop => {
            app.navigate_top();
        },
    }
    Ok(())
}

/// Whether `key_event` is Control held, alone, with the letter `c` in
/// either case.
fn control_c(key_event: KeyEvent) -> (b: bool)
    ensures
        b == is_control_c(key_event),
{
    key_event.modifiers == CONTROL && (key_event.code == KeyCode::Char('c') || key_event.code
        == KeyCode::Char('C'))
}

/// Looks `key_event` up in the key table of `mode`.
pub fn command_for(key_event: KeyEvent, mode: AppMode) -> (command: Option<Command>)
    ensures
        command == bound_command(key_event, mode),
{
    if key_event.kind != KeyEventKind::Press {
        return None;
    }
    match (key_event.code, mode) {
        (KeyCode::Char(_), AppMode::Normal) if control_c(key_event) => Some(Command::Quit),
        (KeyCode::Esc, AppMode::Normal) | (KeyCode::Char('q'), AppMode::Normal) => Some(
            Command::Quit,
        ),
        (KeyCode::Char('j'), AppMode::Normal) => Some(Command::NavigateDown),
        (KeyCode::Char('k'), AppMode::Normal) => Some(Command::NavigateUp),
        (KeyCode::Char('h'), AppMode::Normal) => Some(Command::ToggleHelp),
        (KeyCode::Char('o'), AppMode::Normal) => Some(Command::AddTaskBelow),
        (KeyCode::Char('O'), AppMode::Normal) => Some(Command::AddTaskAbove),
        (KeyCode::Char('x'), AppMode::Normal) => Some(Command::ToggleTask),
        (KeyCode::Char('G'), AppMode::Normal) => Some(Command::NavigateBottom),
        (KeyCode::Char('d'), AppMode::Normal) => Some(Command::DeleteTask),
        (KeyCode::Char('c'), AppMode::Normal) => Some(Command::ChangeTask),
        (KeyCode::Char('a'), AppMode::Normal) => Some(Command::EnterInsertMode),
        (KeyCode::Char('y'), AppMode::Normal) => Some(Command::YankTask),
        (KeyCode::Char('p'), AppMode::Normal) => Some(Command::PasteTaskBelow),
        (KeyCode::Char('P'), AppMode::Normal) => Some(Command::PasteTaskAbove),
        (KeyCode::Char(_), AppMode::Insert) if control_c(key_event) => Some(
            Command::ExitInsertMode,
        ),
        (KeyCode::Esc, AppMode::Insert) => Some(Command::ExitInsertMode),
        (KeyCode::Char(c), AppMode::Insert) => Some(Command::AppendToTask(c)),
        (KeyCode::Backspace, AppMode::Insert) => Some(Command::PopFromTask),
        _ => None,
    }
}

/// Matches `key_event` against the key table of the mode that `app` is in
/// and runs the command that it stands for.
///
/// Leaving insert mode saves the store: how that ends is in the hands of
/// the storage strategy, and a failure is shown as the action message.
pub fn handle_key_events(key_event: KeyEvent, app: &mut App) -> (result: AppResult<()>)
    requires
        old(app).wf(),
        inserts_task(old(app)@, bound_command(key_event, old(app)@.mode)) ==> old(app)@.todo.len()
            < usize::MAX,
    ensures
        result is Ok,
        final(app).wf(),
        final(app).has_serializer() == old(app).has_serializer(),
        exists|failure: Option<Seq<char>>|
            final(app)@ == #[trigger] after_key(old(app)@, key_event, failure),
        bound_command(key_event, old(app)@.mode) != Some(Command::ExitInsertMode)
            || !old(app).has_serializer() ==> final(app)@ == after_key(
            old(app)@,
            key_event,
            None,
        ),
{
    match command_for(key_event, app.get_mode()) {
        Some(Command::Quit) => {
            app.quit();
        },
        Some(Command::NavigateDown) => {
            app.navigate_down();
        },
        Some(Command::NavigateUp) => {
            app.navigate_up();
        },
        Some(Command::ToggleHelp) => {
            app.toggle_help();
        },
        Some(Command::AddTaskBelow) => {
            app.add_task_below();
            app.enter_insert_mode();
        },
        Some(Command::AddTaskAbove) => {
            app.add_task_above();
            app.enter_insert_mode();
        },
        Some(Command::ToggleTask) => {
            app.toggle_task();
        },
        Some(Command::NavigateBottom) => {
            app.navigate_bottom();
        },
        Some(Command::DeleteTask) => {
            app.delete_task();
        },
        Some(Command::ChangeTask) => {
            app.reset_task();
            app.enter_insert_mode();
        },
        Some(Command::EnterInsertMode) => {
            app.enter_insert_mode();
        },
        Some(Command::YankTask) => {
            app.yank_task();
        },
        Some(Command::PasteTaskBelow) => {
            app.paste_task_below();
        },
        Some(Command::PasteTaskAbove) => {
            app.paste_task_above();
        },
        Some(Command::ExitInsertMode) => {
            app.exit_insert_mode();
            proof {
                let failure = choose|failure: Option<Seq<char>>|
                    app@ == #[trigger] old(app)@.exit_insert_mode(failure);
                assert(app@ == after_key(old(app)@, key_event, failure));
            }
            return Ok(());
        },
        Some(Command::AppendToTask(c)) => {
            app.append_to_task(c);
        },
        Some(Command::PopFromTask) => {
            app.pop_from_task();
        },
        None => {},
    }
    assert(app@ == after_key(old(app)@, key_event, None));
    Ok(())
}

/// Routes one tick: the timeouts of the action message and of the chord
/// recognizer both advance.
pub fn handle_tick(app: &mut App, key_sequencer: &mut KeySequencer<KeySequenceEvent>)
    requires
        old(app).wf(),
        old(key_sequencer).wf(),
    ensures
        final(app).wf(),
        final(key_sequencer).wf(),
        final(app).has_serializer() == old(app).has_serializer(),
        final(app)@ == old(app)@.tick(),
        final(key_sequencer)@ == old(key_sequencer)@.tick(),
{
    app.tick();
    key_sequencer.tick();
}

/// Routes one key event. The chord recognizer sees it first, in either
/// mode. Where it completes a chord and the application is in normal mode,
/// what the chord stands for runs and the key tables are not consulted;
/// otherwise the key is matched against the key table of the mode.
pub fn dispatch_key_event(
    key_event: KeyEvent,
    app: &mut App,
    key_sequencer: &mut KeySequencer<KeySequenceEvent>,
) -> (result: AppResult<()>)
    requires
        old(app).wf(),
        old(key_sequencer).wf(),
        inserts_task(old(app)@, bound_command(key_event, old(app)@.mode)) ==> old(app)@.todo.len()
            < usize::MAX,
    ensures
        result is Ok,
        final(app).wf(),
        final(key_sequencer).wf(),
        final(app).has_serializer() == old(app).has_serializer(),
        final(key_sequencer)@ == old(key_sequencer)@.feed(key_event),
        match (old(app)@.mode, old(key_sequencer)@.emitted(key_event)) {
            (AppMode::Normal, Some(event)) => final(app)@ == after_sequence(old(app)@, event),
            _ => {
                &&& exists|failure: Option<Seq<char>>|
                    final(app)@ == #[trigger] after_key(old(app)@, key_event, failure)
                &&& bound_command(key_event, old(app)@.mode) != Some(Command::ExitInsertMode)
                    || !old(app).has_serializer() ==> final(app)@ == after_key(
                    old(app)@,
                    key_event,
                    None,
                )
            },
        },
{
    match (app.get_mode(), key_sequencer.feed(key_event)) {
        (AppMode::Normal, Some(key_sequence_event)) => {
            handle_normal_mode_sequence_key_events(key_sequence_event, app)
        },
        _ => { handle_key_events(key_event, app) },
    }
}

} // verus!
