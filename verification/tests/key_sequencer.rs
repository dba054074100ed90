use todo_term::key_event::{KeyCode, KeyEvent, KeyEventKind, NONE, SHIFT};
use todo_term::key_sequencer::{KeySequencer, SEQUENCE_RESET_TICKS};

fn press(c: char) -> KeyEvent {
    KeyEvent::from(KeyCode::Char(c))
}

#[test]
fn a_chord_fed_in_succession_yields_its_event_once() {
    let mut sequencer: KeySequencer<&'static str> = KeySequencer::new();
    sequencer.register(press('a'), press('b'), "E");
    assert_eq!(sequencer.feed(press('a')), None);
    assert_eq!(sequencer.feed(press('b')), Some("E"));
    // Nothing is pending any more.
    assert_eq!(sequencer.feed(press('b')), None);
    assert_eq!(sequencer.feed(press('a')), None);
    assert_eq!(sequencer.feed(press('b')), Some("E"));
}

#[test]
fn a_chord_times_out_at_the_tenth_idle_tick() {
    assert_eq!(SEQUENCE_RESET_TICKS, 10);
    let mut sequencer: KeySequencer<u32> = KeySequencer::default();
    sequencer.register(press('a'), press('b'), 7);

    assert_eq!(sequencer.feed(press('a')), None);
    for _ in 0..10 {
        sequencer.tick();
    }
    assert_eq!(sequencer.feed(press('b')), None);

    // One tick fewer and the chord still completes. The `b` above is
    // pending now; the `a` replaces it.
    assert_eq!(sequencer.feed(press('a')), None);
    for _ in 0..9 {
        sequencer.tick();
    }
    assert_eq!(sequencer.feed(press('b')), Some(7));
}

#[test]
fn an_accepted_key_resets_the_idle_count() {
    let mut sequencer: KeySequencer<u32> = KeySequencer::new();
    sequencer.register(press('a'), press('b'), 7);
    for _ in 0..9 {
        sequencer.tick();
    }
    assert_eq!(sequencer.feed(press('a')), None);
    for _ in 0..9 {
        sequencer.tick();
    }
    assert_eq!(sequencer.feed(press('b')), Some(7));
}

#[test]
fn registering_a_chord_again_overwrites_it() {
    let mut sequencer: KeySequencer<u32> = KeySequencer::new();
    sequencer.register(press('a'), press('b'), 1);
    sequencer.register(press('c'), press('d'), 2);
    sequencer.register(press('a'), press('b'), 3);
    assert_eq!(sequencer.feed(press('a')), None);
    assert_eq!(sequencer.feed(press('b')), Some(3));
    assert_eq!(sequencer.feed(press('c')), None);
    assert_eq!(sequencer.feed(press('d')), Some(2));
}

#[test]
fn a_key_that_completes_nothing_becomes_the_pending_key() {
    let mut sequencer: KeySequencer<u32> = KeySequencer::new();
    sequencer.register(press('a'), press('b'), 1);
    assert_eq!(sequencer.feed(press('a')), None);
    assert_eq!(sequencer.feed(press('x')), None);
    // `x` overwrote the pending `a`.
    assert_eq!(sequencer.feed(press('b')), None);
    assert_eq!(sequencer.feed(press('a')), None);
    assert_eq!(sequencer.feed(press('a')), None);
    assert_eq!(sequencer.feed(press('b')), Some(1));
}

#[test]
fn releases_and_repeats_do_not_take_part() {
    let mut sequencer: KeySequencer<u32> = KeySequencer::new();
    sequencer.register(press('a'), press('b'), 1);
    let release_a = KeyEvent { kind: KeyEventKind::Release, ..press('a') };
    let repeat_x = KeyEvent { kind: KeyEventKind::Repeat, ..press('x') };
    let release_b = KeyEvent { kind: KeyEventKind::Release, ..press('b') };

    assert_eq!(sequencer.feed(press('a')), None);
    assert_eq!(sequencer.feed(release_a), None);
    assert_eq!(sequencer.feed(repeat_x), None);
    assert_eq!(sequencer.feed(release_b), None);
    // The pending `a` is still there.
    assert_eq!(sequencer.feed(press('b')), Some(1));
}

#[test]
fn a_filtered_key_does_not_reset_the_idle_count() {
    let mut sequencer: KeySequencer<u32> = KeySequencer::new();
    sequencer.register(press('a'), press('b'), 1);
    let release = KeyEvent { kind: KeyEventKind::Release, ..press('a') };
    assert_eq!(sequencer.feed(press('a')), None);
    for _ in 0..9 {
        sequencer.tick();
    }
    assert_eq!(sequencer.feed(release), None);
    sequencer.tick();
    assert_eq!(sequencer.feed(press('b')), None);
}

#[test]
fn a_chord_of_one_key_twice() {
    let mut sequencer: KeySequencer<u32> = KeySequencer::new();
    sequencer.register(press('g'), press('g'), 1);
    assert_eq!(sequencer.feed(press('g')), None);
    assert_eq!(sequencer.feed(press('g')), Some(1));
    assert_eq!(sequencer.feed(press('g')), None);
    assert_eq!(sequencer.feed(press('g')), Some(1));
}

#[test]
fn chords_are_found_by_the_same_key() {
    let mut sequencer: KeySequencer<u32> = KeySequencer::new();
    sequencer.register(press('Z'), press('Z'), 1);
    let shifted_lower = KeyEvent::new(KeyCode::Char('z'), SHIFT);
    let shifted_upper = KeyEvent::new(KeyCode::Char('Z'), SHIFT);
    assert_eq!(sequencer.feed(shifted_lower), None);
    assert_eq!(sequencer.feed(shifted_upper), Some(1));
    assert_eq!(sequencer.feed(KeyEvent::new(KeyCode::Char('z'), NONE)), None);
    assert_eq!(sequencer.feed(KeyEvent::new(KeyCode::Char('z'), NONE)), None);

    // Registering under another spelling of the same keys overwrites.
    sequencer.register(shifted_lower, shifted_upper, 2);
    assert_eq!(sequencer.feed(press('Z')), None);
    assert_eq!(sequencer.feed(press('Z')), Some(2));
}

#[test]
fn a_recognizer_without_chords_yields_nothing() {
    let mut sequencer: KeySequencer<u32> = KeySequencer::new();
    assert_eq!(sequencer.feed(press('g')), None);
    assert_eq!(sequencer.feed(press('g')), None);
    sequencer.tick();
    assert_eq!(sequencer.feed(press('g')), None);
}
