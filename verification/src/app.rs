//! The state of a session and the operations that key presses stand for.
//! What each of them does is said over the model of the state, which the
//! module `machine` defines.

use vstd::prelude::*;
use crate::keys::{action_for, Action, Key, KeyKind};
use crate::list::{position, views, StatefulList};
use crate::machine::{AppModel, ModeModel};
use crate::task::Task;
use crate::text::{char_count, with_char_at, without_char_at};

verus! {

/// What the keyboard currently means. Exactly one mode holds at a time, and
/// each carries what it has to remember until it is left.
#[derive(Debug)]
pub enum Mode {
    /// Browsing the list.
    Normal,
    /// Typing the title of a new task.
    Editing,
    /// A deletion has been asked for and is not yet confirmed.
    ConfirmDelete { task_to_delete: usize },
    /// Retyping the title of the task at `editing_index`, which was
    /// `original_title` when the editing began.
    EditingTask { editing_index: usize, original_title: String },
}

impl View for Mode {
    type V = ModeModel;

    open spec fn view(&self) -> ModeModel {
        match *self {
            Mode::Normal => ModeModel::Normal,
            Mode::Editing => ModeModel::Editing,
            Mode::ConfirmDelete { task_to_delete } => ModeModel::ConfirmDelete {
                task_to_delete: task_to_delete as nat,
            },
            Mode::EditingTask { editing_index, original_title } => ModeModel::EditingTask {
                editing_index: editing_index as nat,
                original_title: original_title@,
            },
        }
    }
}

impl Default for Mode {
    fn default() -> (r: Self)
        ensures
            r == Mode::Normal,
    {
        Mode::Normal
    }
}

/// The whole state of a session: the list, the mode, the text buffer with its
/// cursor, and the flag that ends the session.
pub struct App {
    should_quit: bool,
    tasks: StatefulList<Task>,
    mode: Mode,
    input: String,
    cursor_position: usize,
}

impl View for App {
    type V = AppModel;

    closed spec fn view(&self) -> AppModel {
        AppModel {
            should_quit: self.should_quit,
            tasks: self.tasks@,
            mode: self.mode@,
            input: self.input@,
            cursor: self.cursor_position as nat,
        }
    }
}

impl App {
    /// The state is one that the state machine can be in. Every `App` that
    /// this module hands out is well formed.
    pub open spec fn wf(&self) -> bool {
        self@.wf()
    }

    /// A session with no task.
    pub fn new() -> (app: Self)
        ensures
            app.wf(),
            app@ == AppModel::fresh(),
    {
        App {
            should_quit: false,
            tasks: StatefulList::new(Vec::new()),
            mode: Mode::Normal,
            input: String::new(),
            cursor_position: 0,
        }
    }

    /// A session that starts from what was stored: with the stored tasks, or,
    /// where nothing could be read, with none.
    pub fn restore(saved: Option<Vec<Task>>) -> (app: Self)
        ensures
            app.wf(),
            app@ == (match saved {
                Some(items) => AppModel::restored(views(items@)),
                None => AppModel::fresh(),
            }),
    {
        match saved {
            Some(items) => App {
                should_quit: false,
                tasks: StatefulList::new(items),
                mode: Mode::Normal,
                input: String::new(),
                cursor_position: 0,
            },
            None => App::new(),
        }
    }

    /// The tasks as they are to be stored: a copy of each, in order.
    pub fn saved_tasks(&self) -> (r: Vec<Task>)
        ensures
            views(r@) == self@.saved(),
    {
        let items = self.tasks.items();
        let mut r: Vec<Task> = Vec::new();
        let mut i: usize = 0;
        while i < items.len()
            invariant
                i <= items.len(),
                r@.len() == i,
                forall|k: int| 0 <= k < i ==> r@[k] == items@[k],
            decreases items.len() - i,
        {
            r.push(items[i].clone());
            i = i + 1;
        }
        assert(views(r@) =~= views(items@));
        r
    }

    /// Whether the session is to end.
    pub fn should_quit(&self) -> (b: bool)
        ensures
            b == self@.should_quit,
    {
        self.should_quit
    }

    /// The list of tasks with its cursor.
    pub fn tasks(&self) -> (r: &StatefulList<Task>)
        ensures
            r@ == self@.tasks,
    {
        &self.tasks
    }

    /// The current mode.
    pub fn mode(&self) -> (r: &Mode)
        ensures
            r@ == self@.mode,
    {
        &self.mode
    }

    /// What has been typed.
    pub fn input(&self) -> (r: &str)
        ensures
            r@ == self@.input,
    {
        self.input.as_str()
    }

    /// The place of the cursor in what has been typed, counted in characters.
    pub fn cursor_position(&self) -> (r: usize)
        ensures
            r == self@.cursor,
    {
        self.cursor_position
    }

    /// The place of the task whose deletion waits for its answer, if one does.
    pub fn task_to_delete(&self) -> (r: Option<usize>)
        ensures
            position(r) == (match self@.mode {
                ModeModel::ConfirmDelete { task_to_delete } => Some(task_to_delete),
                _ => None,
            }),
    {
        match self.mode {
            Mode::ConfirmDelete { task_to_delete } => Some(task_to_delete),
            _ => None,
        }
    }

    /// Called once per turn of the event loop. Nothing changes.
    pub fn tick(&self) {
    }

    /// Asks for the session to end.
    pub fn quit(&mut self)
        ensures
            final(self)@ == old(self)@.quit(),
            old(self).wf() ==> final(self).wf(),
    {
        self.should_quit = true;
    }

    /// Empties the text buffer.
    pub fn clear_input(&mut self)
        ensures
            final(self)@ == old(self)@.clear_input(),
            old(self).wf() ==> final(self).wf(),
    {
        self.input = String::new();
        self.cursor_position = 0;
    }

    /// From browsing, starts the typing of a new title. In another mode
    /// nothing happens.
    pub fn enter_editing_mode(&mut self)
        requires
            old(self).wf(),
        ensures
            final(self).wf(),
            final(self)@ == old(self)@.enter_editing_mode(),
    {
        if let Mode::Normal = self.mode {
            self.clear_input();
            self.mode = Mode::Editing;
        }
    }

    /// Gives up the new title and goes back to browsing. In another mode than
    /// `Editing` nothing happens.
    pub fn exit_editing_mode(&mut self)
        requires
            old(self).wf(),
        ensures
            final(self).wf(),
            final(self)@ == old(self)@.exit_editing_mode(),
    {
        if let Mode::Editing = self.mode {
            self.clear_input();
            self.mode = Mode::Normal;
        }
    }

    /// Appends a task with the typed title, unless the title is empty, and
    /// goes back to browsing. In another mode than `Editing` nothing happens.
    pub fn submit_input(&mut self)
        requires
            old(self).wf(),
        ensures
            final(self).wf(),
            final(self)@ == old(self)@.submit_input(),
    {
        if let Mode::Editing = self.mode {
            self.tasks.insert(self.input.as_str());
            self.clear_input();
            self.mode = Mode::Normal;
        }
    }

    /// From browsing with a task selected, asks whether to delete it.
    /// Without a selection, or in another mode, nothing happens.
    pub fn enter_confirm_delete_mode(&mut self)
        requires
            old(self).wf(),
        ensures
            final(self).wf(),
            final(self)@ == old(self)@.enter_confirm_delete_mode(),
    {
        if let Mode::Normal = self.mode {
            if let Some(selected) = self.tasks.selected() {
                self.mode = Mode::ConfirmDelete { task_to_delete: selected };
            }
        }
    }

    /// Deletes the task whose deletion was asked for and goes back to
    /// browsing. In another mode than `ConfirmDelete` nothing happens.
    pub fn delete_task(&mut self)
        requires
            old(self).wf(),
        ensures
            final(self).wf(),
            final(self)@ == old(self)@.delete_task(),
    {
        if let Mode::ConfirmDelete { task_to_delete } = self.mode {
            self.tasks.remove(task_to_delete);
            self.mode = Mode::Normal;
        }
    }

    /// Drops the question and goes back to browsing. In another mode than
    /// `ConfirmDelete` nothing happens.
    pub fn cancel_delete(&mut self)
        requires
            old(self).wf(),
        ensures
            final(self).wf(),
            final(self)@ == old(self)@.cancel_delete(),
    {
        if let Mode::ConfirmDelete { .. } = self.mode {
            self.mode = Mode::Normal;
        }
    }

    /// From browsing with a task selected, starts the retyping of its title.
    /// Without a selection, or in another mode, nothing happens.
    pub fn enter_editing_task_mode(&mut self)
        requires
            old(self).wf(),
        ensures
            final(self).wf(),
            final(self)@ == old(self)@.enter_editing_task_mode(),
    {
        if let Mode::Normal = self.mode {
            if let Some(selected) = self.tasks.selected() {
                if let Some(task) = self.tasks.get(selected) {
                    let title = task.title.clone();
                    self.cursor_position = char_count(&title);
                    self.input = title.clone();
                    self.mode = Mode::EditingTask { editing_index: selected, original_title: title };
                }
            }
        }
    }

    /// Gives the task the typed title and goes back to browsing. In another
    /// mode than `EditingTask` nothing happens.
    pub fn submit_edited_task(&mut self)
        requires
            old(self).wf(),
        ensures
            final(self).wf(),
            final(self)@ == old(self)@.submit_edited_task(),
    {
        if let Mode::EditingTask { editing_index, .. } = self.mode {
            self.tasks.set_title(editing_index, self.input.clone());
            self.clear_input();
            self.mode = Mode::Normal;
        }
    }

    /// Gives the task back the title it had and goes back to browsing. In
    /// another mode than `EditingTask` nothing happens.
    pub fn cancel_editing_task(&mut self)
        requires
            old(self).wf(),
        ensures
            final(self).wf(),
            final(self)@ == old(self)@.cancel_editing_task(),
    {
        let kept: Option<(usize, String)> = match &self.mode {
            Mode::EditingTask { editing_index, original_title } => Some(
                (*editing_index, original_title.clone()),
            ),
            _ => None,
        };
        if let Some((index, title)) = kept {
            self.tasks.set_title(index, title);
            self.clear_input();
            self.mode = Mode::Normal;
        }
    }

    /// While a title is typed, puts `c` in at the cursor.
    pub fn insert_char(&mut self, c: char)
        requires
            old(self).wf(),
        ensures
            final(self).wf(),
            final(self)@ == old(self)@.insert_char(c),
    {
        if self.is_typing() {
            let edited = with_char_at(&self.input, self.cursor_position, c);
            let end: usize = char_count(&edited);
            self.input = edited;
            if self.cursor_position < end {
                self.cursor_position = self.cursor_position + 1;
            }
        }
    }

    /// While a title is typed, deletes the character before the cursor.
    pub fn backspace(&mut self)
        requires
            old(self).wf(),
        ensures
            final(self).wf(),
            final(self)@ == old(self)@.backspace(),
    {
        if self.is_typing() && self.cursor_position > 0 {
            self.cursor_position = self.cursor_position - 1;
            self.input = without_char_at(&self.input, self.cursor_position);
        }
    }

    /// Whether a title is being typed.
    pub fn is_typing(&self) -> (b: bool)
        ensures
            b == self@.is_typing(),
    {
        match self.mode {
            Mode::Editing => true,
            Mode::EditingTask { .. } => true,
            _ => false,
        }
    }

    /// Carries out `action` as the current mode understands it.
    pub fn apply(&mut self, action: Action)
        requires
            old(self).wf(),
        ensures
            final(self).wf(),
            final(self)@ == old(self)@.step(action),
    {
        match self.mode {
            Mode::Normal => match action {
                Action::Quit => self.quit(),
                Action::Next => self.tasks.next(),
                Action::Previous => self.tasks.previous(),
                Action::IncreaseState => {
                    if let Some(selected) = self.tasks.selected() {
                        self.tasks.advance_state(selected);
                    }
                },
                Action::DecreaseState => {
                    if let Some(selected) = self.tasks.selected() {
                        self.tasks.regress_state(selected);
                    }
                },
                Action::MoveUp => {
                    if let Some(selected) = self.tasks.selected() {
                        self.tasks.move_up(selected);
                    }
                },
                Action::MoveDown => {
                    if let Some(selected) = self.tasks.selected() {
                        self.tasks.move_down(selected);
                    }
                },
                Action::Add => self.enter_editing_mode(),
                Action::Delete => self.enter_confirm_delete_mode(),
                Action::Edit => self.enter_editing_task_mode(),
                _ => {},
            },
            Mode::Editing => match action {
                Action::Confirm => self.submit_input(),
                Action::Cancel => self.exit_editing_mode(),
                Action::Insert(c) => self.insert_char(c),
                Action::Backspace => self.backspace(),
                _ => {},
            },
            Mode::ConfirmDelete { .. } => match action {
                Action::Yes => self.delete_task(),
                Action::No | Action::Cancel => self.cancel_delete(),
                _ => {},
            },
            Mode::EditingTask { .. } => match action {
                Action::Confirm => self.submit_edited_task(),
                Action::Cancel => self.cancel_editing_task(),
                Action::Insert(c) => self.insert_char(c),
                Action::Backspace => self.backspace(),
                _ => {},
            },
        }
    }

    /// Carries out what a press of `key` asks for in the current mode.
    pub fn handle_key(&mut self, key: Key)
        requires
            old(self).wf(),
        ensures
            final(self).wf(),
            final(self)@ == old(self)@.on_key(key),
    {
        if let Some(action) = action_for(&self.mode, key) {
            self.apply(action);
        }
    }

    /// Takes a keyboard event: a press is handled, a repeat or a release is
    /// ignored.
    pub fn handle_event(&mut self, kind: KeyKind, key: Key)
        requires
            old(self).wf(),
        ensures
            final(self).wf(),
            final(self)@ == old(self)@.on_event(kind, key),
    {
        if let KeyKind::Press = kind {
            self.handle_key(key);
        }
    }
}

} // verus!
