//! A recognizer of two-key chords with an idle timeout. It knows nothing of
//! what a chord means: it is generic over the event that a chord stands for.

use vstd::prelude::*;
use crate::key_event::{KeyEvent, KeyEventKind};

verus! {

/// The number of idle ticks after which a pending first key is forgotten.
pub const SEQUENCE_RESET_TICKS: u32 = 10;

/// The pair under which a chord is looked up: the normal forms of its two
/// keys, so that two key events that are the same key name the same chord.
pub open spec fn chord_key(first: KeyEvent, second: KeyEvent) -> (KeyEvent, KeyEvent) {
    (first.normalized(), second.normalized())
}

/// The mathematical state of a chord recognizer.
#[verifier::ext_equal]
pub struct SequencerView<T> {
    /// The registered chords, each under its [`chord_key`].
    pub chords: Map<(KeyEvent, KeyEvent), T>,
    /// The pending first key, if any.
    pub last_key: Option<KeyEvent>,
    /// The idle ticks counted since the last accepted key.
    pub ticks: nat,
    /// The idle tick count at which a pending key is forgotten.
    pub threshold: nat,
    /// The filter: which key events take part in chord tracking.
    pub accepts: spec_fn(KeyEvent) -> bool,
}

impl<T> SequencerView<T> {
    /// Well-formedness: the idle count stays below the threshold.
    pub open spec fn wf(self) -> bool {
        self.ticks < self.threshold
    }

    /// The chord `first`, `second` bound to `event`; an earlier binding of
    /// the same chord is overwritten.
    pub open spec fn register(self, first: KeyEvent, second: KeyEvent, event: T) -> Self {
        SequencerView { chords: self.chords.insert(chord_key(first, second), event), ..self }
    }

    /// Whether `key_event` takes part in chord tracking and completes a
    /// registered chord with the pending key.
    pub open spec fn completes(self, key_event: KeyEvent) -> bool {
        &&& (self.accepts)(key_event)
        &&& self.last_key is Some
        &&& self.chords.contains_key(chord_key(self.last_key->0, key_event))
    }

    /// The event that feeding `key_event` yields, if any.
    pub open spec fn emitted(self, key_event: KeyEvent) -> Option<T> {
        if self.completes(key_event) {
            Some(self.chords[chord_key(self.last_key->0, key_event)])
        } else {
            None
        }
    }

    /// The state after feeding `key_event`. A filtered-out event changes
    /// nothing. An accepted one resets the idle count; it clears the pending
    /// key where it completes a chord and becomes the pending key where it
    /// does not.
    pub open spec fn feed(self, key_event: KeyEvent) -> Self {
        if !(self.accepts)(key_event) {
            self
        } else if self.completes(key_event) {
            SequencerView { last_key: None, ticks: 0, ..self }
        } else {
            SequencerView { last_key: Some(key_event), ticks: 0, ..self }
        }
    }

    /// The state after one idle tick: when the count reaches the threshold
    /// the pending key is forgotten and the count starts afresh.
    pub open spec fn tick(self) -> Self {
        if self.ticks + 1 >= self.threshold {
            SequencerView { last_key: None, ticks: 0, ..self }
        } else {
            SequencerView { ticks: self.ticks + 1, ..self }
        }
    }

    /// The state after `n` idle ticks in a row.
    pub open spec fn tick_n(self, n: nat) -> Self
        decreases n,
    {
        if n == 0 {
            self
        } else {
            self.tick().tick_n((n - 1) as nat)
        }
    }
}

/// Idle ticks never bring a pending key into being.
pub proof fn lemma_ticks_keep_none<T>(state: SequencerView<T>, n: nat)
    requires
        state.last_key is None,
    ensures
        state.tick_n(n).last_key is None,
        state.tick_n(n).chords == state.chords,
        state.tick_n(n).accepts == state.accepts,
    decreases n,
{
    if n > 0 {
        lemma_ticks_keep_none(state.tick(), (n - 1) as nat);
    }
}

/// While fewer idle ticks have passed than the threshold asks for, nothing
/// but the idle count changes: a pending key stays pending.
pub proof fn lemma_ticks_within_window<T>(state: SequencerView<T>, n: nat)
    requires
        state.ticks + n < state.threshold,
    ensures
        state.tick_n(n) == (SequencerView { ticks: state.ticks + n, ..state }),
    decreases n,
{
    if n > 0 {
        lemma_ticks_within_window(state.tick(), (n - 1) as nat);
    }
}

/// Once the idle count has reached the threshold, the pending key is
/// forgotten, and it stays forgotten however many more ticks follow.
pub proof fn lemma_ticks_past_window<T>(state: SequencerView<T>, n: nat)
    requires
        state.wf(),
        state.ticks + n >= state.threshold,
    ensures
        state.tick_n(n).last_key is None,
        state.tick_n(n).chords == state.chords,
        state.tick_n(n).accepts == state.accepts,
    decreases n,
{
    if state.ticks + 1 >= state.threshold {
        lemma_ticks_keep_none(state.tick(), (n - 1) as nat);
    } else {
        lemma_ticks_past_window(state.tick(), (n - 1) as nat);
    }
}

/// After `first`, `second` is registered for `event`, feeding `first` and
/// then `second` yields `event` exactly once: the first key yields nothing,
/// the second yields `event`, and no key fed next yields anything, since no
/// key is pending any more.
///
/// Both keys must pass the filter, and `first` must not itself complete a
/// chord with a key that was pending before: that chord's event would come
/// out instead, and `first` would not be pending for `second`.
pub proof fn lemma_chord_yields_event<T>(
    state: SequencerView<T>,
    first: KeyEvent,
    second: KeyEvent,
    event: T,
    next: KeyEvent,
)
    requires
        (state.accepts)(first),
        (state.accepts)(second),
        !state.register(first, second, event).completes(first),
    ensures
        ({
            let registered = state.register(first, second, event);
            &&& registered.emitted(first) is None
            &&& registered.feed(first).emitted(second) == Some(event)
            &&& registered.feed(first).feed(second).last_key is None
            &&& registered.feed(first).feed(second).emitted(next) is None
        }),
{
}

/// Where `first` does complete a chord with a key that was pending, that
/// chord's event is what the two keys yield, once: `second` finds no key
/// pending and yields nothing, and becomes the pending key itself.
pub proof fn lemma_pending_chord_comes_first<T>(
    state: SequencerView<T>,
    first: KeyEvent,
    second: KeyEvent,
)
    requires
        (state.accepts)(second),
        state.completes(first),
    ensures
        state.emitted(first) == Some(state.chords[chord_key(state.last_key->0, first)]),
        state.feed(first).last_key is None,
        state.feed(first).emitted(second) is None,
        state.feed(first).feed(second).last_key == Some(second),
{
}

/// The second key still completes the chord when fewer idle ticks than the
/// threshold pass between the two keys.
pub proof fn lemma_chord_within_timeout<T>(
    state: SequencerView<T>,
    first: KeyEvent,
    second: KeyEvent,
    event: T,
    idle: nat,
)
    requires
        (state.accepts)(first),
        (state.accepts)(second),
        !state.register(first, second, event).completes(first),
        idle < state.threshold,
    ensures
        state.register(first, second, event).feed(first).tick_n(idle).emitted(second) == Some(
            event,
        ),
{
    lemma_ticks_within_window(state.register(first, second, event).feed(first), idle);
}

/// A first key that is followed by at least as many idle ticks as the
/// threshold asks for is forgotten: the key fed after them yields nothing,
/// whatever chords are registered.
pub proof fn lemma_chord_times_out<T>(
    state: SequencerView<T>,
    first: KeyEvent,
    second: KeyEvent,
    idle: nat,
)
    requires
        state.wf(),
        idle >= state.threshold,
    ensures
        state.feed(first).tick_n(idle).last_key is None,
        state.feed(first).tick_n(idle).emitted(second) is None,
{
    lemma_ticks_past_window(state.feed(first), idle);
}

/// Decides which key events take part in chord tracking.
trait KeySequencerFilter {
    /// Whether `key_event` takes part.
    spec fn accepts(&self, key_event: KeyEvent) -> bool;

    /// The event itself where it takes part, nothing where it does not.
    fn filter(&self, key_event: KeyEvent) -> (kept: Option<KeyEvent>)
        ensures
            kept == (if self.accepts(key_event) {
                Some(key_event)
            } else {
                None
            }),
    ;
}

/// The filter that lets key presses through and drops repeats and releases.
struct DefaultKeySequencerFilter;

impl KeySequencerFilter for DefaultKeySequencerFilter {
    spec fn accepts(&self, key_event: KeyEvent) -> bool {
        key_event.kind == KeyEventKind::Press
    }

    fn filter(&self, key_event: KeyEvent) -> (kept: Option<KeyEvent>) {
        match key_event.kind {
            KeyEventKind::Press => Some(key_event),
            _ => None,
        }
    }
}

/// One registered chord: the normal forms of its two keys and its event.
struct Chord<T> {
    first: KeyEvent,
    second: KeyEvent,
    event: T,
}

impl<T> Chord<T> {
    spec fn key(self) -> (KeyEvent, KeyEvent) {
        (self.first, self.second)
    }
}

/// Whether some entry of `entries` is registered under `key`.
spec fn bound<T>(entries: Seq<Chord<T>>, key: (KeyEvent, KeyEvent)) -> bool {
    exists|i: int| 0 <= i < entries.len() && #[trigger] entries[i].key() == key
}

/// The position of an entry of `entries` that is registered under `key`.
spec fn position<T>(entries: Seq<Chord<T>>, key: (KeyEvent, KeyEvent)) -> int {
    choose|i: int| 0 <= i < entries.len() && #[trigger] entries[i].key() == key
}

/// No two entries of `entries` are registered under the same key.
spec fn distinct<T>(entries: Seq<Chord<T>>) -> bool {
    forall|i: int, j: int|
        0 <= i < j < entries.len() ==> #[trigger] entries[i].key() != #[trigger] entries[j].key()
}

/// The chords that `entries` registers.
spec fn chords_of<T>(entries: Seq<Chord<T>>) -> Map<(KeyEvent, KeyEvent), T> {
    Map::new(
        |key: (KeyEvent, KeyEvent)| bound(entries, key),
        |key: (KeyEvent, KeyEvent)| entries[position(entries, key)].event,
    )
}

proof fn lemma_entry_is_chord<T>(entries: Seq<Chord<T>>, i: int)
    requires
        distinct(entries),
        0 <= i < entries.len(),
    ensures
        chords_of(entries).contains_key(entries[i].key()),
        chords_of(entries)[entries[i].key()] == entries[i].event,
{
    let key = entries[i].key();
    assert(bound(entries, key));
    let p = position(entries, key);
    assert(0 <= p < entries.len() && entries[p].key() == key);
    assert(p == i);
}

/// A map that is defined on the keys that `entries` registers, and holds
/// the event of each entry under its key, is the map of their chords.
proof fn lemma_chords_characterized<T>(
    entries: Seq<Chord<T>>,
    chords: Map<(KeyEvent, KeyEvent), T>,
)
    requires
        distinct(entries),
        forall|key: (KeyEvent, KeyEvent)| chords.contains_key(key) <==> bound(entries, key),
        forall|i: int|
            0 <= i < entries.len() ==> chords[#[trigger] entries[i].key()] == entries[i].event,
    ensures
        chords_of(entries) == chords,
{
    assert forall|key: (KeyEvent, KeyEvent)| bound(entries, key) implies chords_of(entries)[key]
        == chords[key] by {
        let p = position(entries, key);
        assert(entries[p].key() == key);
    }
    assert(chords_of(entries) =~= chords);
}

proof fn lemma_push_registers<T>(entries: Seq<Chord<T>>, chord: Chord<T>)
    requires
        distinct(entries),
        !bound(entries, chord.key()),
    ensures
        distinct(entries.push(chord)),
        chords_of(entries.push(chord)) == chords_of(entries).insert(chord.key(), chord.event),
{
    let after = entries.push(chord);
    let chords = chords_of(entries).insert(chord.key(), chord.event);
    assert forall|i: int, j: int| 0 <= i < j < after.len() implies #[trigger] after[i].key()
        != #[trigger] after[j].key() by {
        assert(after[i] == entries[i]);
        if j < entries.len() {
            assert(after[j] == entries[j]);
        }
    }
    assert forall|key: (KeyEvent, KeyEvent)| chords.contains_key(key) <==> bound(
        after,
        key,
    ) by {
        if bound(entries, key) {
            let p = position(entries, key);
            assert(after[p].key() == key);
        }
        if key == chord.key() {
            assert(after[entries.len() as int].key() == key);
        }
        if bound(after, key) {
            let p = position(after, key);
            if p < entries.len() {
                assert(entries[p].key() == key);
            }
        }
    }
    assert forall|i: int| 0 <= i < after.len() implies chords[#[trigger] after[i].key()]
        == after[i].event by {
        if i < entries.len() {
            assert(after[i] == entries[i]);
            lemma_entry_is_chord(entries, i);
        }
    }
    lemma_chords_characterized(after, chords);
}

proof fn lemma_update_registers<T>(entries: Seq<Chord<T>>, at: int, chord: Chord<T>)
    requires
        distinct(entries),
        0 <= at < entries.len(),
        entries[at].key() == chord.key(),
    ensures
        distinct(entries.update(at, chord)),
        chords_of(entries.update(at, chord)) == chords_of(entries).insert(
            chord.key(),
            chord.event,
        ),
{
    let after = entries.update(at, chord);
    let chords = chords_of(entries).insert(chord.key(), chord.event);
    assert forall|i: int| 0 <= i < after.len() implies #[trigger] after[i].key()
        == entries[i].key() by {}
    assert forall|i: int, j: int| 0 <= i < j < after.len() implies #[trigger] after[i].key()
        != #[trigger] after[j].key() by {
        assert(entries[i].key() != entries[j].key());
    }
    assert forall|key: (KeyEvent, KeyEvent)| chords.contains_key(key) <==> bound(
        after,
        key,
    ) by {
        if bound(entries, key) {
            let p = position(entries, key);
            assert(after[p].key() == key);
        }
        if key == chord.key() {
            assert(after[at].key() == key);
        }
        if bound(after, key) {
            let p = position(after, key);
            assert(entries[p].key() == key);
        }
    }
    assert forall|i: int| 0 <= i < after.len() implies chords[#[trigger] after[i].key()]
        == after[i].event by {
        if i != at {
            if i < at {
                assert(entries[i].key() != entries[at].key());
            } else {
                assert(entries[at].key() != entries[i].key());
            }
            lemma_entry_is_chord(entries, i);
        }
    }
    lemma_chords_characterized(after, chords);
}

/// A recognizer of two-key chords. A pending first key is forgotten after
/// [`SEQUENCE_RESET_TICKS`] idle ticks.
pub struct KeySequencer<T: Clone> {
    sequences: Vec<Chord<T>>,
    last_key: Option<KeyEvent>,
    tick_count: u32,
    reset_tick_count: u32,
    filter: Box<dyn KeySequencerFilter>,
}

impl<T: Clone> View for KeySequencer<T> {
    type V = SequencerView<T>;

    closed spec fn view(&self) -> SequencerView<T> {
        SequencerView {
            chords: chords_of(self.sequences@),
            last_key: self.last_key,
            ticks: self.tick_count as nat,
            threshold: self.reset_tick_count as nat,
            accepts: |key_event: KeyEvent| self.filter.accepts(key_event),
        }
    }
}

impl<T: Clone> KeySequencer<T> {
    /// Well-formedness: the idle count stays below the threshold, and no
    /// chord is held twice. Every constructor establishes it and every
    /// method keeps it.
    pub closed spec fn wf(&self) -> bool {
        &&& self.tick_count < self.reset_tick_count
        &&& distinct(self.sequences@)
    }

    /// A well-formed recognizer has a well-formed state.
    pub proof fn lemma_wf_view(&self)
        requires
            self.wf(),
        ensures
            self@.wf(),
    {
    }

    /// A recognizer without chords and without a pending key, which tracks
    /// key presses only.
    pub fn new() -> (sequencer: Self)
        ensures
            sequencer.wf(),
            sequencer@.chords == Map::<(KeyEvent, KeyEvent), T>::empty(),
            sequencer@.last_key is None,
            sequencer@.ticks == 0,
            sequencer@.threshold == SEQUENCE_RESET_TICKS,
            forall|key_event: KeyEvent|
                #[trigger] (sequencer@.accepts)(key_event) == (key_event.kind
                    == KeyEventKind::Press),
    {
        let sequencer = KeySequencer {
            sequences: Vec::new(),
            last_key: None,
            tick_count: 0,
            reset_tick_count: SEQUENCE_RESET_TICKS,
            filter: Box::new(DefaultKeySequencerFilter),
        };
        assert(sequencer@.chords =~= Map::<(KeyEvent, KeyEvent), T>::empty());
        sequencer
    }

    /// Counts one idle tick.
    pub fn tick(&mut self)
        requires
            old(self).wf(),
        ensures
            final(self).wf(),
            final(self)@ == old(self)@.tick(),
    {
        self.tick_count += 1;
        if self.tick_count >= self.reset_tick_count {
            self.last_key = None;
            self.tick_count = 0;
        }
    }

    /// The position of the chord registered under the normal forms `first`,
    /// `second`, if there is one.
    fn find(&self, first: KeyEvent, second: KeyEvent) -> (found: Option<usize>)
        ensures
            match found {
                Some(i) => i < self.sequences@.len() && self.sequences@[i as int].key() == (
                    first,
                    second,
                ),
                None => !bound(self.sequences@, (first, second)),
            },
    {
        let mut i: usize = 0;
        while i < self.sequences.len()
            invariant
                i <= self.sequences@.len(),
                forall|j: int| 0 <= j < i ==> #[trigger] self.sequences@[j].key() != (first, second),
            decreases self.sequences@.len() - i,
        {
            if self.sequences[i].first == first && self.sequences[i].second == second {
                return Some(i);
            }
            i += 1;
        }
        None
    }

    /// Feeds one key event and returns the event of the chord that it
    /// completes, if it completes one.
    pub fn feed(&mut self, key_event: KeyEvent) -> (emitted: Option<T>)
        requires
            old(self).wf(),
        ensures
            final(self).wf(),
            final(self)@ == old(self)@.feed(key_event),
            match old(self)@.emitted(key_event) {
                Some(event) => emitted is Some && cloned(event, emitted->0),
                None => emitted is None,
            },
    {
        if let None = self.filter.filter(key_event) {
            return None;
        }
        self.tick_count = 0;
        let last_key = self.last_key;
        self.last_key = Some(key_event);

        if let Some(last_key) = last_key {
            if let Some(i) = self.find(last_key.normalize_case(), key_event.normalize_case()) {
                proof {
                    lemma_entry_is_chord(self.sequences@, i as int);
                }
                self.last_key = None;
                return Some(self.sequences[i].event.clone());
            }
        }
        None
    }

    /// Binds the chord `key1`, `key2` to `event`. Binding a chord again
    /// overwrites its event.
    pub fn register(&mut self, key1: KeyEvent, key2: KeyEvent, event: T)
        requires
            old(self).wf(),
        ensures
            final(self).wf(),
            final(self)@ == old(self)@.register(key1, key2, event),
    {
        let first = key1.normalize_case();
        let second = key2.normalize_case();
        let chord = Chord { first, second, event };
        match self.find(first, second) {
            Some(i) => {
                proof {
                    lemma_update_registers(self.sequences@, i as int, chord);
                }
                self.sequences.set(i, chord);
            },
            None => {
                proof {
                    lemma_push_registers(self.sequences@, chord);
                }
                self.sequences.push(chord);
            },
        }
    }
}

impl<T: Clone> Default for KeySequencer<T> {
    fn default() -> (sequencer: Self)
        ensures
            sequencer.wf(),
            sequencer@.chords == Map::<(KeyEvent, KeyEvent), T>::empty(),
            sequencer@.last_key is None,
            sequencer@.ticks == 0,
            sequencer@.threshold == SEQUENCE_RESET_TICKS,
            forall|key_event: KeyEvent|
                #[trigger] (sequencer@.accepts)(key_event) == (key_event.kind
                    == KeyEventKind::Press),
    {
        Self::new()
    }
}

} // verus!
