//! The mode state machine as mathematics: what a state is, which states are
//! well formed, where each action leads, and what holds of every run.

use vstd::prelude::*;
use crate::keys::{binding, Action, Key, KeyKind};
use crate::list::ListModel;
use crate::task::TaskModel;

verus! {

/// What a mode is: which of the four it is, and what it remembers.
#[verifier::ext_equal]
pub enum ModeModel {
    Normal,
    Editing,
    ConfirmDelete { task_to_delete: nat },
    EditingTask { editing_index: nat, original_title: Seq<char> },
}

/// What the application is at one moment.
#[verifier::ext_equal]
pub struct AppModel {
    pub should_quit: bool,
    pub tasks: ListModel<TaskModel>,
    pub mode: ModeModel,
    pub input: Seq<char>,
    pub cursor: nat,
}

impl AppModel {
    /// The list is well formed and the cursor of the text buffer lies within
    /// the buffer. The buffer is empty while no title is typed. A deletion
    /// that waits for its answer, and a title that is retyped, are those of
    /// the selected task, and that task still carries the title it had.
    pub open spec fn wf(self) -> bool {
        &&& self.tasks.wf()
        &&& self.cursor <= self.input.len()
        &&& match self.mode {
            ModeModel::Normal => self.input.len() == 0,
            ModeModel::Editing => true,
            ModeModel::ConfirmDelete { task_to_delete } => {
                &&& self.input.len() == 0
                &&& self.tasks.selected == Some(task_to_delete)
            },
            ModeModel::EditingTask { editing_index, original_title } => {
                &&& self.tasks.selected == Some(editing_index)
                &&& editing_index < self.tasks.items.len()
                &&& self.tasks.items[editing_index as int].title == original_title
            },
        }
    }

    /// Whether a title is being typed.
    pub open spec fn is_typing(self) -> bool {
        self.mode is Editing || self.mode is EditingTask
    }

    /// The state a session starts in when nothing was stored: no task, no
    /// selection, browsing, nothing typed.
    pub open spec fn fresh() -> Self {
        Self::restored(Seq::empty())
    }

    /// The state a session starts in with the stored tasks `items`: the
    /// cursor on the first of them, browsing, nothing typed.
    pub open spec fn restored(items: Seq<TaskModel>) -> Self {
        AppModel {
            should_quit: false,
            tasks: ListModel::loaded(items),
            mode: ModeModel::Normal,
            input: Seq::empty(),
            cursor: 0,
        }
    }

    /// The state with the quit flag set.
    pub open spec fn quit(self) -> Self {
        AppModel { should_quit: true, ..self }
    }

    /// The state with an empty text buffer.
    pub open spec fn clear_input(self) -> Self {
        AppModel { input: Seq::empty(), cursor: 0, ..self }
    }

    /// Back to browsing: what the mode remembered and what was typed are gone.
    pub open spec fn idle(self) -> Self {
        AppModel { mode: ModeModel::Normal, input: Seq::empty(), cursor: 0, ..self }
    }

    /// From browsing, start to type the title of a new task.
    pub open spec fn enter_editing_mode(self) -> Self {
        if self.mode is Normal {
            AppModel { mode: ModeModel::Editing, input: Seq::empty(), cursor: 0, ..self }
        } else {
            self
        }
    }

    /// Give up the title of a new task.
    pub open spec fn exit_editing_mode(self) -> Self {
        if self.mode is Editing {
            self.idle()
        } else {
            self
        }
    }

    /// The typed title, unless it is empty, becomes a new task at the end of
    /// the list, and browsing resumes.
    pub open spec fn submit_input(self) -> Self {
        if self.mode is Editing {
            AppModel { tasks: self.tasks.insert(self.input), ..self }.idle()
        } else {
            self
        }
    }

    /// From browsing with a task selected, ask whether to delete it.
    pub open spec fn enter_confirm_delete_mode(self) -> Self {
        match (self.mode, self.tasks.selected) {
            (ModeModel::Normal, Some(i)) => AppModel {
                mode: ModeModel::ConfirmDelete { task_to_delete: i },
                ..self
            },
            _ => self,
        }
    }

    /// The task whose deletion was asked for leaves the list, and browsing
    /// resumes.
    pub open spec fn delete_task(self) -> Self {
        match self.mode {
            ModeModel::ConfirmDelete { task_to_delete } => AppModel {
                tasks: self.tasks.remove(task_to_delete),
                ..self
            }.idle(),
            _ => self,
        }
    }

    /// The deletion that was asked for does not take place, and browsing
    /// resumes.
    pub open spec fn cancel_delete(self) -> Self {
        if self.mode is ConfirmDelete {
            self.idle()
        } else {
            self
        }
    }

    /// From browsing with a task selected, start to retype its title: the
    /// buffer holds the title, the cursor stands at its end, and the mode
    /// remembers the title.
    pub open spec fn enter_editing_task_mode(self) -> Self {
        match (self.mode, self.tasks.selected) {
            (ModeModel::Normal, Some(i)) if i < self.tasks.items.len() => {
                let title = self.tasks.items[i as int].title;
                AppModel {
                    mode: ModeModel::EditingTask { editing_index: i, original_title: title },
                    input: title,
                    cursor: title.len(),
                    ..self
                }
            },
            _ => self,
        }
    }

    /// What was typed becomes the title of the task, and browsing resumes.
    pub open spec fn submit_edited_task(self) -> Self {
        match self.mode {
            ModeModel::EditingTask { editing_index, .. } => AppModel {
                tasks: self.tasks.set_title(editing_index, self.input),
                ..self
            }.idle(),
            _ => self,
        }
    }

    /// The task gets back the title it had when the editing began, and
    /// browsing resumes.
    pub open spec fn cancel_editing_task(self) -> Self {
        match self.mode {
            ModeModel::EditingTask { editing_index, original_title } => AppModel {
                tasks: self.tasks.set_title(editing_index, original_title),
                ..self
            }.idle(),
            _ => self,
        }
    }

    /// While a title is typed, `c` goes in at the cursor and the cursor moves
    /// past it.
    pub open spec fn insert_char(self, c: char) -> Self {
        if self.is_typing() {
            AppModel {
                input: self.input.insert(self.cursor as int, c),
                cursor: self.cursor + 1,
                ..self
            }
        } else {
            self
        }
    }

    /// While a title is typed and the cursor is not at its start, the cursor
    /// moves one place back and the character there goes.
    pub open spec fn backspace(self) -> Self {
        if self.is_typing() && self.cursor > 0 {
            AppModel {
                input: self.input.remove(self.cursor - 1),
                cursor: (self.cursor - 1) as nat,
                ..self
            }
        } else {
            self
        }
    }

    /// The state with `tasks` in place of the list.
    pub open spec fn with_tasks(self, tasks: ListModel<TaskModel>) -> Self {
        AppModel { tasks, ..self }
    }

    /// What browsing makes of `action`.
    pub open spec fn step_normal(self, action: Action) -> Self {
        match action {
            Action::Quit => self.quit(),
            Action::Next => self.with_tasks(self.tasks.next()),
            Action::Previous => self.with_tasks(self.tasks.previous()),
            Action::IncreaseState => match self.tasks.selected {
                Some(i) => self.with_tasks(self.tasks.advance_state(i)),
                None => self,
            },
            Action::DecreaseState => match self.tasks.selected {
                Some(i) => self.with_tasks(self.tasks.regress_state(i)),
                None => self,
            },
            Action::MoveUp => match self.tasks.selected {
                Some(i) => self.with_tasks(self.tasks.move_up(i)),
                None => self,
            },
            Action::MoveDown => match self.tasks.selected {
                Some(i) => self.with_tasks(self.tasks.move_down(i)),
                None => self,
            },
            Action::Add => self.enter_editing_mode(),
            Action::Delete => self.enter_confirm_delete_mode(),
            Action::Edit => self.enter_editing_task_mode(),
            _ => self,
        }
    }

    /// The state that `action` leads to. An action that has no meaning in the
    /// current mode changes nothing.
    pub open spec fn step(self, action: Action) -> Self {
        match self.mode {
            ModeModel::Normal => self.step_normal(action),
            ModeModel::Editing => match action {
                Action::Confirm => self.submit_input(),
                Action::Cancel => self.exit_editing_mode(),
                Action::Insert(c) => self.insert_char(c),
                Action::Backspace => self.backspace(),
                _ => self,
            },
            ModeModel::ConfirmDelete { .. } => match action {
                Action::Yes => self.delete_task(),
                Action::No | Action::Cancel => self.cancel_delete(),
                _ => self,
            },
            ModeModel::EditingTask { .. } => match action {
                Action::Confirm => self.submit_edited_task(),
                Action::Cancel => self.cancel_editing_task(),
                Action::Insert(c) => self.insert_char(c),
                Action::Backspace => self.backspace(),
                _ => self,
            },
        }
    }

    /// The state that a press of `key` leads to.
    pub open spec fn on_key(self, key: Key) -> Self {
        match binding(self.mode, key) {
            Some(action) => self.step(action),
            None => self,
        }
    }

    /// The state that a keyboard event leads to: only a press counts.
    pub open spec fn on_event(self, kind: KeyKind, key: Key) -> Self {
        if kind == KeyKind::Press {
            self.on_key(key)
        } else {
            self
        }
    }

    /// The state that a run of actions leads to, one action after the other.
    pub open spec fn run(self, actions: Seq<Action>) -> Self
        decreases actions.len(),
    {
        if actions.len() == 0 {
            self
        } else {
            self.step(actions[0]).run(actions.drop_first())
        }
    }

    /// What is written to storage: the tasks in their order, and nothing else.
    pub open spec fn saved(self) -> Seq<TaskModel> {
        self.tasks.items
    }

    /// The state machine never leaves the well-formed states, whatever it is
    /// asked to do.
    pub proof fn lemma_step_keeps_wf(self, action: Action)
        requires
            self.wf(),
        ensures
            self.step(action).wf(),
    {
        self.tasks.lemma_cursor_moves_keep_wf(0);
        self.tasks.lemma_edits_keep_wf(0, self.input);
        match self.mode {
            ModeModel::Normal => {
                if let Some(i) = self.tasks.selected {
                    self.tasks.lemma_cursor_moves_keep_wf(i);
                    self.tasks.lemma_edits_keep_wf(i, self.input);
                }
            },
            ModeModel::Editing => {},
            ModeModel::ConfirmDelete { task_to_delete } => {
                self.tasks.lemma_cursor_moves_keep_wf(task_to_delete);
            },
            ModeModel::EditingTask { editing_index, original_title } => {
                self.tasks.lemma_edits_keep_wf(editing_index, self.input);
                self.tasks.lemma_edits_keep_wf(editing_index, original_title);
            },
        }
    }

    /// Whatever key is pressed, held or released, the state stays well formed.
    pub proof fn lemma_event_keeps_wf(self, kind: KeyKind, key: Key)
        requires
            self.wf(),
        ensures
            self.on_key(key).wf(),
            self.on_event(kind, key).wf(),
    {
        if let Some(action) = binding(self.mode, key) {
            self.lemma_step_keeps_wf(action);
        }
    }

    /// A run of actions leads from a well-formed state to a well-formed state.
    pub proof fn lemma_run_keeps_wf(self, actions: Seq<Action>)
        requires
            self.wf(),
        ensures
            self.run(actions).wf(),
        decreases actions.len(),
    {
        if actions.len() > 0 {
            self.lemma_step_keeps_wf(actions[0]);
            self.step(actions[0]).lemma_run_keeps_wf(actions.drop_first());
        }
    }

    proof fn lemma_typing_keeps_list(self, typed: Seq<Action>)
        requires
            self.wf(),
            self.mode is EditingTask,
            forall|k: int| 0 <= k < typed.len() ==> typed[k] is Insert || typed[k] is Backspace,
        ensures
            self.run(typed).wf(),
            self.run(typed).mode == self.mode,
            self.run(typed).tasks == self.tasks,
            self.run(typed).should_quit == self.should_quit,
        decreases typed.len(),
    {
        if typed.len() > 0 {
            self.lemma_step_keeps_wf(typed[0]);
            let rest = typed.drop_first();
            assert forall|k: int| 0 <= k < rest.len() implies rest[k] is Insert
                || rest[k] is Backspace by {
                assert(rest[k] == typed[k + 1]);
            }
            self.step(typed[0]).lemma_typing_keeps_list(rest);
        }
    }

    /// Editing and cancelling undo each other. From browsing with the cursor
    /// on a task, start to edit it and type and delete characters at will:
    /// the mode still remembers the title the task had. To cancel then leaves
    /// the whole list as it was before the editing; to confirm instead gives
    /// the task what the buffer holds as its title and changes nothing else
    /// of the list. Either way browsing resumes.
    pub proof fn lemma_edit_cancel_symmetry(self, typed: Seq<Action>)
        requires
            self.wf(),
            self.mode is Normal,
            self.tasks.selected is Some,
            forall|k: int| 0 <= k < typed.len() ==> typed[k] is Insert || typed[k] is Backspace,
        ensures
            ({
                let index = self.tasks.selected->0;
                let title = self.tasks.items[index as int].title;
                let edited = self.step(Action::Edit).run(typed);
                &&& edited.mode == ModeModel::EditingTask {
                    editing_index: index,
                    original_title: title,
                }
                &&& edited.step(Action::Cancel).tasks == self.tasks
                &&& edited.step(Action::Cancel).mode is Normal
                &&& edited.step(Action::Confirm).tasks == self.tasks.set_title(index, edited.input)
                &&& edited.step(Action::Confirm).tasks.items[index as int].title == edited.input
                &&& edited.step(Action::Confirm).mode is Normal
            }),
    {
        let index = self.tasks.selected->0;
        let begun = self.step(Action::Edit);
        self.lemma_step_keeps_wf(Action::Edit);
        begun.lemma_typing_keeps_list(typed);
        let edited = begun.run(typed);
        assert(edited.step(Action::Cancel).tasks.items =~= self.tasks.items);
    }

    proof fn lemma_typing_appends(self, text: Seq<char>, typed: Seq<Action>)
        requires
            self.wf(),
            self.is_typing(),
            self.cursor == self.input.len(),
            typed.len() == text.len(),
            forall|k: int| 0 <= k < text.len() ==> typed[k] == Action::Insert(text[k]),
        ensures
            self.run(typed) == (AppModel {
                input: self.input + text,
                cursor: self.input.len() + text.len(),
                ..self
            }),
        decreases text.len(),
    {
        if text.len() == 0 {
            assert(self.input + text =~= self.input);
        } else {
            let first = self.step(typed[0]);
            self.lemma_step_keeps_wf(typed[0]);
            assert(first.input =~= self.input.push(text[0]));
            let rest = text.drop_first();
            assert forall|k: int| 0 <= k < rest.len() implies typed.drop_first()[k]
                == Action::Insert(rest[k]) by {
                assert(typed.drop_first()[k] == typed[k + 1]);
                assert(rest[k] == text[k + 1]);
            }
            first.lemma_typing_appends(rest, typed.drop_first());
            assert(first.input + rest =~= self.input + text);
        }
    }

    /// Adding a task: from browsing, ask to add, type a title character by
    /// character and confirm. The buffer then held exactly what was typed,
    /// the list has grown by one task with that title that is not started,
    /// and nothing else has changed: the cursor of the list is where it was.
    /// With nothing typed the state is the one before.
    pub proof fn lemma_add_appends_what_is_typed(self, title: Seq<char>, typed: Seq<Action>)
        requires
            self.wf(),
            self.mode is Normal,
            typed.len() == title.len(),
            forall|k: int| 0 <= k < title.len() ==> typed[k] == Action::Insert(title[k]),
        ensures
            self.step(Action::Add).run(typed).input == title,
            self.step(Action::Add).run(typed).step(Action::Confirm) == self.with_tasks(
                self.tasks.insert(title),
            ),
            title.len() > 0 ==> self.tasks.insert(title).items == self.tasks.items.push(
                TaskModel::fresh(title),
            ),
            self.tasks.insert(title).selected == self.tasks.selected,
    {
        let begun = self.step(Action::Add);
        begun.lemma_typing_appends(title, typed);
        assert(begun.input + title =~= title);
    }

    /// Deleting a task: from browsing with the cursor on a task, ask to
    /// delete and say yes. The selected task has left the list and browsing
    /// has resumed; to say no instead leaves the state as it was.
    pub proof fn lemma_confirmed_delete_removes_selected(self)
        requires
            self.wf(),
            self.mode is Normal,
            self.tasks.selected is Some,
        ensures
            self.step(Action::Delete).mode == (ModeModel::ConfirmDelete {
                task_to_delete: self.tasks.selected->0,
            }),
            self.step(Action::Delete).step(Action::Yes) == self.with_tasks(
                self.tasks.remove(self.tasks.selected->0),
            ),
            self.step(Action::Delete).step(Action::No) == self,
            self.step(Action::Delete).step(Action::Cancel) == self,
            self.tasks.items.len() == 1 ==> {
                &&& self.step(Action::Delete).step(Action::Yes).tasks.items.len() == 0
                &&& self.step(Action::Delete).step(Action::Yes).tasks.selected is None
            },
    {
    }

    /// Storing and restoring keeps the tasks: a session restored from what
    /// was stored holds the same titles and markers in the same order. Its
    /// cursor is on the first task, or nowhere if there is none; it browses,
    /// and nothing is typed, whatever the state was that was stored.
    pub proof fn lemma_restore_keeps_tasks(self)
        ensures
            Self::restored(self.saved()).wf(),
            Self::restored(self.saved()).saved() == self.saved(),
            Self::restored(self.saved()).tasks.selected == (if self.saved().len() > 0 {
                Some(0nat)
            } else {
                None
            }),
            Self::restored(self.saved()).mode is Normal,
            Self::restored(self.saved()).input.len() == 0,
            Self::restored(self.saved()).cursor == 0,
            !Self::restored(self.saved()).should_quit,
    {
    }
}

} // verus!
