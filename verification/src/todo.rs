//! The task store: two ordered lists of task texts, incomplete and complete,
//! addressed through one logical index space, incomplete first.

use vstd::prelude::*;
use crate::todo_serializer::{PersistenceError, TodoSerializer, TodoSnapshot};

verus! {

/// The mathematical content of a task store.
///
/// Logical indices `0 .. incomplete.len()` address the incomplete tasks in
/// order; the indices that follow, up to `len()`, address the complete tasks
/// in order.
#[verifier::ext_equal]
pub struct TodoView {
    pub incomplete: Seq<Seq<char>>,
    pub complete: Seq<Seq<char>>,
}

impl TodoView {
    /// The store without any task.
    pub open spec fn empty() -> TodoView {
        TodoView { incomplete: Seq::empty(), complete: Seq::empty() }
    }

    /// The number of tasks in both lists.
    pub open spec fn len(self) -> nat {
        self.incomplete.len() + self.complete.len()
    }

    /// Whether the logical index `index` addresses an incomplete task.
    pub open spec fn is_incomplete(self, index: int) -> bool {
        0 <= index < self.incomplete.len()
    }

    /// The text of the task at the logical index `index`.
    pub open spec fn task_at(self, index: int) -> Seq<char>
        recommends
            0 <= index < self.len(),
    {
        if index < self.incomplete.len() {
            self.incomplete[index]
        } else {
            self.complete[index - self.incomplete.len()]
        }
    }

    /// `text` inserted as a new incomplete task at position `index`.
    pub open spec fn add(self, index: int, text: Seq<char>) -> TodoView
        recommends
            0 <= index <= self.incomplete.len(),
    {
        TodoView { incomplete: self.incomplete.insert(index, text), complete: self.complete }
    }

    /// The task at `index` moved to the other list: a task that becomes
    /// complete goes to the front of the complete list, a task that becomes
    /// incomplete goes to the end of the incomplete list.
    pub open spec fn toggle(self, index: int) -> TodoView
        recommends
            0 <= index < self.len(),
    {
        if index < self.incomplete.len() {
            TodoView {
                incomplete: self.incomplete.remove(index),
                complete: self.complete.insert(0, self.incomplete[index]),
            }
        } else {
            let k = index - self.incomplete.len();
            TodoView {
                incomplete: self.incomplete.push(self.complete[k]),
                complete: self.complete.remove(k),
            }
        }
    }

    /// The logical index at which the task that `toggle(index)` moved is found
    /// afterwards.
    pub open spec fn toggled_index(self, index: int) -> int
        recommends
            0 <= index < self.len(),
    {
        if index < self.incomplete.len() {
            self.incomplete.len() - 1
        } else {
            self.incomplete.len() as int
        }
    }

    /// The task at `index` removed from the list that holds it.
    pub open spec fn delete(self, index: int) -> TodoView
        recommends
            0 <= index < self.len(),
    {
        if index < self.incomplete.len() {
            TodoView { incomplete: self.incomplete.remove(index), complete: self.complete }
        } else {
            TodoView {
                incomplete: self.incomplete,
                complete: self.complete.remove(index - self.incomplete.len()),
            }
        }
    }

    /// The text of the task at `index` replaced by `text`, in place.
    pub open spec fn edit(self, index: int, text: Seq<char>) -> TodoView
        recommends
            0 <= index < self.len(),
    {
        if index < self.incomplete.len() {
            TodoView { incomplete: self.incomplete.update(index, text), complete: self.complete }
        } else {
            TodoView {
                incomplete: self.incomplete,
                complete: self.complete.update(index - self.incomplete.len(), text),
            }
        }
    }
}

/// Toggling a task and then toggling it again where it went puts its text
/// back into the list it came from: at the end of the incomplete list, or at
/// the front of the complete list. The other tasks keep their lists and their
/// relative order, and the number of tasks stays the same.
pub proof fn lemma_toggle_twice_restores(store: TodoView, index: int)
    requires
        0 <= index < store.len(),
    ensures
        0 <= store.toggled_index(index) < store.toggle(index).len(),
        store.toggle(index).task_at(store.toggled_index(index)) == store.task_at(index),
        store.toggle(index).is_incomplete(store.toggled_index(index)) != store.is_incomplete(
            index,
        ),
        ({
            let back = store.toggle(index).toggle(store.toggled_index(index));
            let text = store.task_at(index);
            &&& back.len() == store.len()
            &&& store.is_incomplete(index) ==> {
                &&& back.incomplete == store.incomplete.remove(index).push(text)
                &&& back.incomplete.contains(text)
                &&& back.complete == store.complete
            }
            &&& !store.is_incomplete(index) ==> {
                &&& back.complete == store.complete.remove(index - store.incomplete.len()).insert(
                    0,
                    text,
                )
                &&& back.complete.contains(text)
                &&& back.incomplete == store.incomplete
            }
        }),
{
    let once = store.toggle(index);
    let at = store.toggled_index(index);
    let back = once.toggle(at);
    let text = store.task_at(index);
    if store.is_incomplete(index) {
        assert(back.incomplete =~= store.incomplete.remove(index).push(text));
        assert(back.complete =~= store.complete);
        assert(back.incomplete[back.incomplete.len() - 1] == text);
    } else {
        let k = index - store.incomplete.len();
        assert(back.complete =~= store.complete.remove(k).insert(0, text));
        assert(back.incomplete =~= store.incomplete);
        assert(back.complete[0] == text);
    }
}

/// Adding a task and then deleting the task at the same index gives the
/// store back as it was: the same texts in the same lists and order.
pub proof fn lemma_add_then_delete_restores(store: TodoView, index: int, text: Seq<char>)
    requires
        0 <= index <= store.incomplete.len(),
    ensures
        store.add(index, text).len() == store.len() + 1,
        store.add(index, text).task_at(index) == text,
        store.add(index, text).delete(index) == store,
{
    assert(store.add(index, text).delete(index) =~= store);
}

/// A task store, with the storage strategy it was built with, if any.
pub struct Todo {
    complete_tasks: Vec<String>,
    incomplete_tasks: Vec<String>,
    serializer: Option<Box<dyn TodoSerializer>>,
}

impl View for Todo {
    type V = TodoView;

    closed spec fn view(&self) -> TodoView {
        TodoView {
            incomplete: self.incomplete_tasks.deep_view(),
            complete: self.complete_tasks.deep_view(),
        }
    }
}

impl Todo {
    /// Well-formedness: the total number of tasks fits the machine's index
    /// type. Every constructor establishes it and every method keeps it.
    pub closed spec fn wf(&self) -> bool {
        self.incomplete_tasks.len() + self.complete_tasks.len() <= usize::MAX
    }

    /// Whether the store was built with a storage strategy. No operation
    /// gives it one later or takes it away.
    pub closed spec fn has_serializer(&self) -> bool {
        self.serializer is Some
    }

    /// An empty store without a storage strategy.
    pub fn new() -> (todo: Todo)
        ensures
            todo.wf(),
            todo@ == TodoView::empty(),
            !todo.has_serializer(),
    {
        let todo = Todo {
            complete_tasks: Vec::new(),
            incomplete_tasks: Vec::new(),
            serializer: None,
        };
        assert(todo@ =~= TodoView::empty());
        todo
    }

    /// An empty store that saves to and loads from `serializer`.
    pub fn with_serializer(serializer: Box<dyn TodoSerializer>) -> (todo: Todo)
        ensures
            todo.wf(),
            todo@ == TodoView::empty(),
            todo.has_serializer(),
    {
        let todo = Todo {
            complete_tasks: Vec::new(),
            incomplete_tasks: Vec::new(),
            serializer: Some(serializer),
        };
        assert(todo@ =~= TodoView::empty());
        todo
    }

    /// The total number of tasks.
    pub fn len(&self) -> (n: usize)
        requires
            self.wf(),
        ensures
            n == self@.len(),
    {
        self.incomplete_tasks.len() + self.complete_tasks.len()
    }

    /// Whether the store holds no task at all.
    pub fn is_empty(&self) -> (b: bool)
        requires
            self.wf(),
        ensures
            b == (self@.len() == 0),
    {
        self.len() == 0
    }

    /// The complete tasks, in order.
    pub fn get_complete_tasks(&self) -> (tasks: &Vec<String>)
        ensures
            tasks.deep_view() == self@.complete,
    {
        &self.complete_tasks
    }

    /// The incomplete tasks, in order.
    pub fn get_incomplete_tasks(&self) -> (tasks: &Vec<String>)
        ensures
            tasks.deep_view() == self@.incomplete,
    {
        &self.incomplete_tasks
    }

    /// Inserts `task` as a new incomplete task at position `index`.
    pub fn add_task(&mut self, index: usize, task: String)
        requires
            old(self).wf(),
            index <= old(self)@.incomplete.len(),
            old(self)@.len() < usize::MAX,
        ensures
            final(self).wf(),
            final(self)@ == old(self)@.add(index as int, task@),
            final(self).has_serializer() == old(self).has_serializer(),
    {
        self.incomplete_tasks.insert(index, task);
        assert(self@ =~= old(self)@.add(index as int, task@));
    }

    /// Moves the task at `index` to the other list.
    pub fn toggle_task(&mut self, index: usize)
        requires
            old(self).wf(),
            index < old(self)@.len(),
        ensures
            final(self).wf(),
            final(self)@ == old(self)@.toggle(index as int),
            final(self).has_serializer() == old(self).has_serializer(),
    {
        if index < self.incomplete_tasks.len() {
            let task = self.incomplete_tasks.remove(index);
            self.complete_tasks.insert(0, task);
        } else {
            let k = index - self.incomplete_tasks.len();
            let task = self.complete_tasks.remove(k);
            self.incomplete_tasks.push(task);
        }
        assert(self@ =~= old(self)@.toggle(index as int));
    }

    /// Removes the task at `index` from the list that holds it.
    pub fn delete_task(&mut self, index: usize)
        requires
            old(self).wf(),
            index < old(self)@.len(),
        ensures
            final(self).wf(),
            final(self)@ == old(self)@.delete(index as int),
            final(self).has_serializer() == old(self).has_serializer(),
    {
        if index < self.incomplete_tasks.len() {
            self.incomplete_tasks.remove(index);
        } else {
            let k = index - self.incomplete_tasks.len();
            self.complete_tasks.remove(k);
        }
        assert(self@ =~= old(self)@.delete(index as int));
    }

    /// Replaces the text of the task at `index`, which keeps its list and its
    /// position.
    pub fn edit_task(&mut self, index: usize, task: String)
        requires
            old(self).wf(),
            index < old(self)@.len(),
        ensures
            final(self).wf(),
            final(self)@ == old(self)@.edit(index as int, task@),
            final(self).has_serializer() == old(self).has_serializer(),
    {
        if index < self.incomplete_tasks.len() {
            self.incomplete_tasks.set(index, task);
        } else {
            let k = index - self.incomplete_tasks.len();
            self.complete_tasks.set(k, task);
        }
        assert(self@ =~= old(self)@.edit(index as int, task@));
    }

    /// The persistable form of the store as it is now: both lists, copied.
    pub fn snapshot(&self) -> (snapshot: TodoSnapshot)
        ensures
            snapshot.incomplete() == self@.incomplete,
            snapshot.complete() == self@.complete,
    {
        broadcast use vstd::std_specs::vec::vec_clone_deep_view_proof;

        TodoSnapshot {
            complete_tasks: self.complete_tasks.clone(),
            incomplete_tasks: self.incomplete_tasks.clone(),
        }
    }

    /// Takes in what a storage strategy answered to a load.
    ///
    /// A snapshot replaces both lists at once. A failure is handed on and
    /// leaves the store as it was; so does a snapshot with more tasks than
    /// the machine's index type can count, which is reported as a failure
    /// with the message "Too many tasks".
    pub fn apply_loaded(&mut self, loaded: Result<TodoSnapshot, PersistenceError>) -> (r: Result<
        (),
        PersistenceError,
    >)
        requires
            old(self).wf(),
        ensures
            final(self).wf(),
            final(self).has_serializer() == old(self).has_serializer(),
            match loaded {
                Ok(snapshot) => if snapshot.fits() {
                    &&& r is Ok
                    &&& final(self)@.incomplete == snapshot.incomplete()
                    &&& final(self)@.complete == snapshot.complete()
                } else {
                    &&& r matches Err(e) && e.message@ == "Too many tasks"@
                    &&& final(self)@ == old(self)@
                },
                Err(e) => r == Err::<(), PersistenceError>(e) && final(self)@ == old(self)@,
            },
    {
        match loaded {
            Ok(snapshot) => {
                let incomplete = snapshot.incomplete_tasks.len();
                let complete = snapshot.complete_tasks.len();
                if incomplete <= usize::MAX - complete {
                    self.complete_tasks = snapshot.complete_tasks;
                    self.incomplete_tasks = snapshot.incomplete_tasks;
                    Ok(())
                } else {
                    Err(PersistenceError { message: "Too many tasks".to_owned() })
                }
            },
            Err(e) => Err(e),
        }
    }

    /// Persists the store through its storage strategy. A store without one
    /// has nothing to do and succeeds; otherwise the strategy is handed
    /// [`Self::snapshot`] and its answer is returned as it came.
    pub fn save(&self) -> (r: Result<(), PersistenceError>)
        ensures
            !self.has_serializer() ==> r is Ok,
    {
        match &self.serializer {
            Some(serializer) => {
                let snapshot = self.snapshot();
                serializer.save(&snapshot)
            },
            None => Ok(()),
        }
    }

    /// Replaces both lists by what the storage strategy loads. A store
    /// without one stays as it is and succeeds; otherwise the strategy's
    /// answer goes through [`Self::apply_loaded`], so a failure leaves the
    /// store as it was.
    pub fn load(&mut self) -> (r: Result<(), PersistenceError>)
        requires
            old(self).wf(),
        ensures
            final(self).wf(),
            final(self).has_serializer() == old(self).has_serializer(),
            !old(self).has_serializer() ==> r is Ok && final(self)@ == old(self)@,
            r is Err ==> final(self)@ == old(self)@,
    {
        let loaded = match &self.serializer {
            Some(serializer) => serializer.load(),
            None => {
                return Ok(());
            },
        };
        self.apply_loaded(loaded)
    }
}

} // verus!
