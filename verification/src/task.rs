//! A task and its three-valued progress marker.

use vstd::prelude::*;
use vstd::string::*;

verus! {

/// How far a task has come. The three markers form a cycle:
/// `Todo`, `InProgress`, `Done`, and `Todo` again.
#[derive(Debug, Clone, Copy, PartialEq, Eq, Structural)]
pub enum TaskState {
    Todo,
    InProgress,
    Done,
}

impl TaskState {
    /// The marker that follows `self` in the cycle.
    pub open spec fn successor(self) -> TaskState {
        match self {
            TaskState::Todo => TaskState::InProgress,
            TaskState::InProgress => TaskState::Done,
            TaskState::Done => TaskState::Todo,
        }
    }

    /// The marker that precedes `self` in the cycle.
    pub open spec fn predecessor(self) -> TaskState {
        match self {
            TaskState::Todo => TaskState::Done,
            TaskState::InProgress => TaskState::Todo,
            TaskState::Done => TaskState::InProgress,
        }
    }

    /// The three characters that stand for the marker on screen.
    pub open spec fn glyph_text(self) -> Seq<char> {
        match self {
            TaskState::Todo => seq!['[', ' ', ']'],
            TaskState::InProgress => seq!['[', '>', ']'],
            TaskState::Done => seq!['[', 'x', ']'],
        }
    }

    /// One step forward in the cycle.
    pub fn next(&self) -> (r: Self)
        ensures
            r == self.successor(),
    {
        match self {
            TaskState::Todo => TaskState::InProgress,
            TaskState::InProgress => TaskState::Done,
            TaskState::Done => TaskState::Todo,
        }
    }

    /// One step backward in the cycle.
    pub fn prev(&self) -> (r: Self)
        ensures
            r == self.predecessor(),
    {
        match self {
            TaskState::Todo => TaskState::Done,
            TaskState::InProgress => TaskState::Todo,
            TaskState::Done => TaskState::InProgress,
        }
    }

    /// The marker as it is drawn: `[ ]`, `[>]` or `[x]`.
    pub fn glyph(&self) -> (r: &'static str)
        ensures
            r@ == self.glyph_text(),
    {
        proof {
            reveal_strlit("[ ]");
            reveal_strlit("[>]");
            reveal_strlit("[x]");
        }
        let r = match self {
            TaskState::Todo => "[ ]",
            TaskState::InProgress => "[>]",
            TaskState::Done => "[x]",
        };
        assert(r@ =~= self.glyph_text());
        r
    }

    /// Three steps forward lead back to the start, and a step forward and a
    /// step backward undo each other.
    pub proof fn lemma_marker_cycle(self)
        ensures
            self.successor().successor().successor() == self,
            self.predecessor().predecessor().predecessor() == self,
            self.successor().predecessor() == self,
            self.predecessor().successor() == self,
    {
    }
}

/// What a task is: its title as a sequence of characters, and its marker.
#[verifier::ext_equal]
pub struct TaskModel {
    pub title: Seq<char>,
    pub state: TaskState,
}

impl TaskModel {
    /// A task that has not been started.
    pub open spec fn fresh(title: Seq<char>) -> TaskModel {
        TaskModel { title, state: TaskState::Todo }
    }

    /// The line that shows the task: its glyph, a space, its title.
    pub open spec fn label(self) -> Seq<char> {
        self.state.glyph_text() + seq![' '] + self.title
    }
}

/// One entry of the list. A task has no identity beyond the place it holds.
#[derive(Debug)]
pub struct Task {
    pub title: String,
    pub state: TaskState,
}

impl View for Task {
    type V = TaskModel;

    open spec fn view(&self) -> TaskModel {
        TaskModel { title: self.title@, state: self.state }
    }
}

impl Clone for Task {
    fn clone(&self) -> (r: Self)
        ensures
            r == *self,
    {
        Task { title: self.title.clone(), state: self.state }
    }
}

impl Task {
    /// A task with the given title that has not been started.
    pub fn new(title: &str) -> (t: Self)
        ensures
            t@ == TaskModel::fresh(title@),
    {
        Task { title: title.to_owned(), state: TaskState::Todo }
    }

    /// The line that shows the task: its glyph, a space, its title.
    pub fn label(&self) -> (r: String)
        ensures
            r@ == self@.label(),
    {
        proof {
            reveal_strlit(" ");
        }
        let mut r = self.state.glyph().to_owned();
        r.append(" ");
        r.append(self.title.as_str());
        assert(r@ =~= self@.label());
        r
    }
}

} // verus!
