//! The persistence collaborator of the task store: the snapshot that is
//! exchanged with it, the error it reports, and the capability itself.

use vstd::prelude::*;

verus! {

/// The persistable form of a task store: its two ordered sequences of task texts.
pub struct TodoSnapshot {
    pub complete_tasks: Vec<String>,
    pub incomplete_tasks: Vec<String>,
}

/// A failure to save or to load, with the text that is shown to the user.
pub struct PersistenceError {
    pub message: String,
}

/// A storage strategy. A store holds at most one, chosen when it is built.
///
/// Nothing is promised of either operation: what comes back depends on the
/// storage behind it.
pub trait TodoSerializer {
    /// Persists `snapshot`.
    fn save(&self, snapshot: &TodoSnapshot) -> Result<(), PersistenceError>;

    /// Reads back the last persisted snapshot.
    fn load(&self) -> Result<TodoSnapshot, PersistenceError>;
}

impl TodoSnapshot {
    /// The incomplete task texts, in order.
    pub open spec fn incomplete(&self) -> Seq<Seq<char>> {
        self.incomplete_tasks.deep_view()
    }

    /// The complete task texts, in order.
    pub open spec fn complete(&self) -> Seq<Seq<char>> {
        self.complete_tasks.deep_view()
    }

    /// Whether the tasks of both lists can be counted in the machine's index
    /// type, as a store must be able to.
    pub open spec fn fits(&self) -> bool {
        self.incomplete().len() + self.complete().len() <= usize::MAX
    }
}

} // verus!
