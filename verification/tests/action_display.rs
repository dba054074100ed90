use todo_term::action_display::{ActionDisplay, ACTION_RESET_TICKS};

#[test]
fn a_new_display_is_empty() {
    let display = ActionDisplay::new();
    assert_eq!(display.get(), "");
    assert_eq!(ActionDisplay::default().get(), "");
}

#[test]
fn set_replaces_the_message() {
    let mut display = ActionDisplay::new();
    display.set("Deleted task");
    assert_eq!(display.get(), "Deleted task");
    display.set("Yanked task");
    assert_eq!(display.get(), "Yanked task");
}

#[test]
fn the_message_is_cleared_at_the_twentieth_tick() {
    assert_eq!(ACTION_RESET_TICKS, 20);
    let mut display = ActionDisplay::new();
    display.set("Saving todo");
    for _ in 0..19 {
        display.tick();
        assert_eq!(display.get(), "Saving todo");
    }
    display.tick();
    assert_eq!(display.get(), "");
}

#[test]
fn set_starts_the_count_afresh() {
    let mut display = ActionDisplay::new();
    display.set("first");
    for _ in 0..15 {
        display.tick();
    }
    display.set("second");
    for _ in 0..19 {
        display.tick();
        assert_eq!(display.get(), "second");
    }
    display.tick();
    assert_eq!(display.get(), "");
}

#[test]
fn the_count_starts_afresh_after_a_clear() {
    let mut display = ActionDisplay::new();
    for _ in 0..20 {
        display.tick();
    }
    // The count is back at zero: a message set now and one set on a new
    // display live equally long.
    display.set("x");
    for _ in 0..19 {
        display.tick();
    }
    assert_eq!(display.get(), "x");
    display.tick();
    assert_eq!(display.get(), "");
}
