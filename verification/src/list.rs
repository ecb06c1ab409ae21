//! The ordered list of items with its selection cursor.

use vstd::prelude::*;
use crate::task::{Task, TaskModel};

verus! {

/// The views of the elements of `s`, in the same order.
pub open spec fn views<T: View>(s: Seq<T>) -> Seq<T::V> {
    Seq::new(s.len(), |i: int| s[i]@)
}

/// An optional machine index as an optional natural number.
pub open spec fn position(i: Option<usize>) -> Option<nat> {
    match i {
        Some(i) => Some(i as nat),
        None => None,
    }
}

/// What a list is: its items in display order, and the place of the cursor.
#[verifier::ext_equal]
pub struct ListModel<T> {
    pub items: Seq<T>,
    pub selected: Option<nat>,
}

impl<T> ListModel<T> {
    /// The cursor, where there is one, points at an item.
    pub open spec fn wf(self) -> bool {
        self.selected matches Some(i) ==> i < self.items.len()
    }

    /// The list as it starts out with the given items: the cursor on the first
    /// item, or nowhere if there is none.
    pub open spec fn loaded(items: Seq<T>) -> Self {
        ListModel { items, selected: if items.len() > 0 { Some(0nat) } else { None } }
    }

    /// The cursor one place further, from the last item round to the first.
    /// Without a cursor it lands on the first item. An empty list stays as it is.
    pub open spec fn next(self) -> Self {
        if self.items.len() == 0 {
            self
        } else {
            ListModel {
                items: self.items,
                selected: Some(
                    match self.selected {
                        Some(i) => (i + 1) % self.items.len(),
                        None => 0nat,
                    },
                ),
            }
        }
    }

    /// The cursor one place back, from the first item round to the last.
    /// Without a cursor it lands on the first item. An empty list stays as it is.
    pub open spec fn previous(self) -> Self {
        if self.items.len() == 0 {
            self
        } else {
            ListModel {
                items: self.items,
                selected: Some(
                    match self.selected {
                        Some(i) => if i == 0 {
                            (self.items.len() - 1) as nat
                        } else {
                            (i - 1) as nat
                        },
                        None => 0nat,
                    },
                ),
            }
        }
    }

    /// The same items with no cursor.
    pub open spec fn unselect(self) -> Self {
        ListModel { items: self.items, selected: None }
    }

    /// The items with those at `i` and `j` exchanged.
    pub open spec fn exchanged(self, i: int, j: int) -> Seq<T> {
        self.items.update(i, self.items[j]).update(j, self.items[i])
    }

    /// The item at `index` changes places with the one before it, and the
    /// cursor goes with it. Nothing happens to the first item, nor where
    /// `index` is no place of the list.
    pub open spec fn move_up(self, index: nat) -> Self {
        if 0 < index < self.items.len() {
            ListModel {
                items: self.exchanged(index as int, index - 1),
                selected: Some((index - 1) as nat),
            }
        } else {
            self
        }
    }

    /// The item at `index` changes places with the one after it, and the
    /// cursor goes with it. Nothing happens to the last item, nor where
    /// `index` is no place of the list.
    pub open spec fn move_down(self, index: nat) -> Self {
        if index + 1 < self.items.len() {
            ListModel {
                items: self.exchanged(index as int, index as int + 1),
                selected: Some(index + 1),
            }
        } else {
            self
        }
    }

    /// Where the cursor stands once the item at `index` has left a list that
    /// then holds `rest` items: nowhere if none is left; on the new last item
    /// if the last one left; else where it stood, but never past the new last
    /// item.
    pub open spec fn cursor_after_removal(self, index: nat, rest: nat) -> Option<nat> {
        if rest == 0 {
            None
        } else if index == rest {
            Some((rest - 1) as nat)
        } else {
            match self.selected {
                Some(s) if s >= rest => Some((rest - 1) as nat),
                _ => self.selected,
            }
        }
    }

    /// The list without the item at `index`. Nothing happens where `index` is
    /// no place of the list.
    pub open spec fn remove(self, index: nat) -> Self {
        if index < self.items.len() {
            ListModel {
                items: self.items.remove(index as int),
                selected: self.cursor_after_removal(index, (self.items.len() - 1) as nat),
            }
        } else {
            self
        }
    }

    /// `next` taken `n` times in a row.
    pub open spec fn next_times(self, n: nat) -> Self
        decreases n,
    {
        if n == 0 {
            self
        } else {
            self.next().next_times((n - 1) as nat)
        }
    }

    /// `previous` taken `n` times in a row.
    pub open spec fn previous_times(self, n: nat) -> Self
        decreases n,
    {
        if n == 0 {
            self
        } else {
            self.previous().previous_times((n - 1) as nat)
        }
    }

    /// In a well-formed list, `next` moves a cursor that is on the list to
    /// the place after it, or from the last place to the first.
    pub proof fn lemma_next_step(self)
        requires
            self.wf(),
            self.selected is Some,
        ensures
            self.next().items == self.items,
            self.next().selected == Some(
                if self.selected->0 + 1 == self.items.len() {
                    0nat
                } else {
                    self.selected->0 + 1
                },
            ),
            self.next().wf(),
    {
        let i = self.selected->0;
        let n = self.items.len();
        if i + 1 == n {
            vstd::arithmetic::div_mod::lemma_mod_self_0(n as int);
        } else {
            vstd::arithmetic::div_mod::lemma_small_mod(i + 1, n);
        }
    }

    /// Every operation on the cursor leaves a well-formed list well formed.
    pub proof fn lemma_cursor_moves_keep_wf(self, index: nat)
        requires
            self.wf(),
        ensures
            self.next().wf(),
            self.previous().wf(),
            self.unselect().wf(),
            self.move_up(index).wf(),
            self.move_down(index).wf(),
            self.remove(index).wf(),
            Self::loaded(self.items).wf(),
    {
        if self.selected is Some {
            self.lemma_next_step();
        }
    }

    proof fn lemma_next_times_from(self, k: nat)
        requires
            self.wf(),
            self.selected is Some,
            k <= self.items.len(),
        ensures
            self.next_times(k).items == self.items,
            self.next_times(k).selected == Some(
                if self.selected->0 + k < self.items.len() {
                    self.selected->0 + k
                } else {
                    (self.selected->0 + k - self.items.len()) as nat
                },
            ),
        decreases k,
    {
        if k > 0 {
            self.lemma_next_step();
            self.next().lemma_next_times_from((k - 1) as nat);
        }
    }

    proof fn lemma_previous_times_from(self, k: nat)
        requires
            self.wf(),
            self.selected is Some,
            k <= self.items.len(),
        ensures
            self.previous_times(k).items == self.items,
            self.previous_times(k).selected == Some(
                if k <= self.selected->0 {
                    (self.selected->0 - k) as nat
                } else {
                    (self.selected->0 + self.items.len() - k) as nat
                },
            ),
        decreases k,
    {
        if k > 0 {
            self.previous().lemma_previous_times_from((k - 1) as nat);
        }
    }

    /// Navigation wraps: in a list of `n > 0` items with the cursor on one of
    /// them, `n` times `next` bring the cursor back to where it was, and so
    /// do `n` times `previous`.
    pub proof fn lemma_navigation_wraps(self)
        requires
            self.wf(),
            self.items.len() > 0,
            self.selected is Some,
        ensures
            self.next_times(self.items.len()) == self,
            self.previous_times(self.items.len()) == self,
    {
        self.lemma_next_times_from(self.items.len());
        self.lemma_previous_times_from(self.items.len());
    }

    /// Moving is bounded: the first item cannot move up and the last cannot
    /// move down. Any other move exchanges exactly two neighbours, leaves
    /// every other item in its place, and leaves the cursor on the item that
    /// was moved.
    pub proof fn lemma_move_exchanges_neighbours(self, index: nat)
        requires
            index < self.items.len(),
        ensures
            self.move_up(0) == self,
            self.move_down((self.items.len() - 1) as nat) == self,
            index > 0 ==> {
                let moved = self.move_up(index);
                &&& moved.items.len() == self.items.len()
                &&& moved.items[index - 1] == self.items[index as int]
                &&& moved.items[index as int] == self.items[index - 1]
                &&& forall|k: int|
                    0 <= k < self.items.len() && k != index && k != index - 1
                        ==> moved.items[k] == self.items[k]
                &&& moved.selected == Some((index - 1) as nat)
            },
            index + 1 < self.items.len() ==> {
                let moved = self.move_down(index);
                &&& moved.items.len() == self.items.len()
                &&& moved.items[index as int + 1] == self.items[index as int]
                &&& moved.items[index as int] == self.items[index as int + 1]
                &&& forall|k: int|
                    0 <= k < self.items.len() && k != index && k != index + 1
                        ==> moved.items[k] == self.items[k]
                &&& moved.selected == Some(index + 1)
            },
    {
    }

    /// Deleting the last item puts the cursor on the new last item, and
    /// deleting the only item leaves no cursor.
    pub proof fn lemma_remove_last(self)
        requires
            self.wf(),
            self.items.len() > 0,
        ensures
            self.remove((self.items.len() - 1) as nat).items == self.items.drop_last(),
            self.items.len() == 1 ==> self.remove(0).selected is None,
            self.items.len() > 1 ==> self.remove((self.items.len() - 1) as nat).selected == Some(
                (self.items.len() - 2) as nat,
            ),
    {
        let last = (self.items.len() - 1) as nat;
        assert(self.items.remove(last as int) =~= self.items.drop_last());
    }

    /// Deleting an item that is not the last leaves the number of the cursor
    /// as it was, so that the cursor is then on the item that followed. This
    /// is said of a cursor that is not on the last item: that one has to move
    /// to stay on the list.
    pub proof fn lemma_remove_before_last(self, index: nat)
        requires
            self.wf(),
            index + 1 < self.items.len(),
            self.selected != Some((self.items.len() - 1) as nat),
        ensures
            self.remove(index).selected == self.selected,
            forall|k: int|
                index <= k < self.items.len() - 1 ==> self.remove(index).items[k] == self.items[k
                    + 1],
            forall|k: int| 0 <= k < index ==> self.remove(index).items[k] == self.items[k],
    {
    }
}

/// An ordered list and a cursor that is either nowhere or on one of its items.
pub struct StatefulList<T> {
    items: Vec<T>,
    selected: Option<usize>,
}

impl<T: View> View for StatefulList<T> {
    type V = ListModel<T::V>;

    closed spec fn view(&self) -> ListModel<T::V> {
        ListModel { items: views(self.items@), selected: position(self.selected) }
    }
}

impl<T: View> StatefulList<T> {
    /// The cursor, where there is one, points at an item. Every list that
    /// this module hands out is well formed.
    pub open spec fn wf(&self) -> bool {
        self@.wf()
    }

    /// The list of the given items, the cursor on the first of them.
    pub fn new(items: Vec<T>) -> (r: Self)
        ensures
            r.wf(),
            r@ == ListModel::loaded(views(items@)),
    {
        let selected: Option<usize> = if items.len() > 0 { Some(0) } else { None };
        StatefulList { items, selected }
    }

    /// Puts the cursor back where a list starts out: on the first item, or
    /// nowhere in an empty list.
    pub fn post_deserialize(&mut self)
        ensures
            final(self).wf(),
            final(self)@ == ListModel::loaded(old(self)@.items),
    {
        if self.items.len() > 0 {
            self.selected = Some(0);
        } else {
            self.selected = None;
        }
    }

    /// Moves the cursor to the next item, from the last round to the first.
    pub fn next(&mut self)
        requires
            old(self).wf(),
        ensures
            final(self).wf(),
            final(self)@ == old(self)@.next(),
    {
        let n: usize = self.items.len();
        if n > 0 {
            let i: usize = match self.selected {
                Some(i) => if i >= n - 1 { 0 } else { i + 1 },
                None => 0,
            };
            proof {
                if let Some(s) = self.selected {
                    if s + 1 == n {
                        vstd::arithmetic::div_mod::lemma_mod_self_0(n as int);
                    } else {
                        vstd::arithmetic::div_mod::lemma_small_mod((s + 1) as nat, n as nat);
                    }
                }
            }
            self.selected = Some(i);
        }
    }

    /// Moves the cursor to the item before, from the first round to the last.
    pub fn previous(&mut self)
        requires
            old(self).wf(),
        ensures
            final(self).wf(),
            final(self)@ == old(self)@.previous(),
    {
        let n: usize = self.items.len();
        if n > 0 {
            let i: usize = match self.selected {
                Some(i) => if i == 0 { n - 1 } else { i - 1 },
                None => 0,
            };
            self.selected = Some(i);
        }
    }

    /// Takes the cursor off the list.
    pub fn unselect(&mut self)
        ensures
            final(self).wf(),
            final(self)@ == old(self)@.unselect(),
    {
        self.selected = None;
    }

    /// Exchanges the item at `index` with the one before it and puts the
    /// cursor on it in its new place.
    pub fn move_up(&mut self, index: usize)
        requires
            old(self).wf(),
        ensures
            final(self).wf(),
            final(self)@ == old(self)@.move_up(index as nat),
    {
        if 0 < index && index < self.items.len() {
            let item = self.items.remove(index);
            self.items.insert(index - 1, item);
            self.selected = Some(index - 1);
            assert(views(self.items@) =~= old(self)@.exchanged(index as int, index - 1));
        }
    }

    /// Exchanges the item at `index` with the one after it and puts the
    /// cursor on it in its new place.
    pub fn move_down(&mut self, index: usize)
        requires
            old(self).wf(),
        ensures
            final(self).wf(),
            final(self)@ == old(self)@.move_down(index as nat),
    {
        let n: usize = self.items.len();
        if index < n && index + 1 < n {
            let item = self.items.remove(index);
            self.items.insert(index + 1, item);
            self.selected = Some(index + 1);
            assert(views(self.items@) =~= old(self)@.exchanged(index as int, index + 1));
        }
    }

    /// Deletes the item at `index` and puts the cursor right again.
    pub fn remove(&mut self, index: usize)
        requires
            old(self).wf(),
        ensures
            final(self).wf(),
            final(self)@ == old(self)@.remove(index as nat),
    {
        if index < self.items.len() {
            let _ = self.items.remove(index);
            let rest: usize = self.items.len();
            if rest == 0 {
                self.selected = None;
            } else if index == rest {
                self.selected = Some(rest - 1);
            } else if let Some(s) = self.selected {
                if s >= rest {
                    self.selected = Some(rest - 1);
                }
            }
            assert(views(self.items@) =~= old(self)@.items.remove(index as int));
        }
    }

    /// The number of items.
    pub fn len(&self) -> (n: usize)
        ensures
            n == self@.items.len(),
    {
        self.items.len()
    }

    /// Whether the list holds no item.
    pub fn is_empty(&self) -> (b: bool)
        ensures
            b == (self@.items.len() == 0),
    {
        self.items.len() == 0
    }

    /// The place of the cursor, if it is on the list.
    pub fn selected(&self) -> (r: Option<usize>)
        ensures
            position(r) == self@.selected,
    {
        self.selected
    }

    /// The items in display order.
    pub fn items(&self) -> (r: &Vec<T>)
        ensures
            views(r@) == self@.items,
    {
        &self.items
    }

    /// The item at `index`, if there is one.
    pub fn get(&self, index: usize) -> (r: Option<&T>)
        ensures
            match r {
                Some(item) => index < self@.items.len() && item@ == self@.items[index as int],
                None => index >= self@.items.len(),
            },
    {
        if index < self.items.len() {
            Some(&self.items[index])
        } else {
            None
        }
    }
}

impl ListModel<TaskModel> {
    /// The task at `index` carries the next marker of the cycle. Nothing
    /// happens where `index` is no place of the list.
    pub open spec fn advance_state(self, index: nat) -> Self {
        if index < self.items.len() {
            let task = self.items[index as int];
            ListModel {
                items: self.items.update(
                    index as int,
                    TaskModel { title: task.title, state: task.state.successor() },
                ),
                selected: self.selected,
            }
        } else {
            self
        }
    }

    /// The task at `index` carries the previous marker of the cycle. Nothing
    /// happens where `index` is no place of the list.
    pub open spec fn regress_state(self, index: nat) -> Self {
        if index < self.items.len() {
            let task = self.items[index as int];
            ListModel {
                items: self.items.update(
                    index as int,
                    TaskModel { title: task.title, state: task.state.predecessor() },
                ),
                selected: self.selected,
            }
        } else {
            self
        }
    }

    /// A task with the given title, not yet started, joins the end of the
    /// list. An empty title adds nothing. The cursor stays where it is, also
    /// when the list was empty: nothing is selected until the cursor is moved.
    pub open spec fn insert(self, title: Seq<char>) -> Self {
        if title.len() == 0 {
            self
        } else {
            ListModel { items: self.items.push(TaskModel::fresh(title)), selected: self.selected }
        }
    }

    /// The task at `index` carries the given title. Nothing happens where
    /// `index` is no place of the list.
    pub open spec fn set_title(self, index: nat, title: Seq<char>) -> Self {
        if index < self.items.len() {
            ListModel {
                items: self.items.update(
                    index as int,
                    TaskModel { title, state: self.items[index as int].state },
                ),
                selected: self.selected,
            }
        } else {
            self
        }
    }

    /// Changing markers and titles, and appending, leave a well-formed list
    /// well formed.
    pub proof fn lemma_edits_keep_wf(self, index: nat, title: Seq<char>)
        requires
            self.wf(),
        ensures
            self.advance_state(index).wf(),
            self.regress_state(index).wf(),
            self.insert(title).wf(),
            self.set_title(index, title).wf(),
    {
    }

    /// The markers go round in three steps: advancing a task three times
    /// gives the list back, and so does advancing it and then regressing it.
    pub proof fn lemma_marker_cycle(self, index: nat)
        ensures
            self.advance_state(index).advance_state(index).advance_state(index) == self,
            self.advance_state(index).regress_state(index) == self,
            self.regress_state(index).advance_state(index) == self,
    {
        if index < self.items.len() {
            self.items[index as int].state.lemma_marker_cycle();
            assert(self.advance_state(index).advance_state(index).advance_state(index).items
                =~= self.items);
            assert(self.advance_state(index).regress_state(index).items =~= self.items);
            assert(self.regress_state(index).advance_state(index).items =~= self.items);
        }
    }
}

impl StatefulList<Task> {
    /// Gives the task at `index` the next marker of the cycle.
    pub fn advance_state(&mut self, index: usize)
        requires
            old(self).wf(),
        ensures
            final(self).wf(),
            final(self)@ == old(self)@.advance_state(index as nat),
    {
        if index < self.items.len() {
            let state = self.items[index].state.next();
            self.items[index].state = state;
            assert(views(self.items@) =~= old(self)@.advance_state(index as nat).items);
        }
    }

    /// Gives the task at `index` the previous marker of the cycle.
    pub fn regress_state(&mut self, index: usize)
        requires
            old(self).wf(),
        ensures
            final(self).wf(),
            final(self)@ == old(self)@.regress_state(index as nat),
    {
        if index < self.items.len() {
            let state = self.items[index].state.prev();
            self.items[index].state = state;
            assert(views(self.items@) =~= old(self)@.regress_state(index as nat).items);
        }
    }

    /// Appends a task with the given title that has not been started, unless
    /// the title is empty.
    pub fn insert(&mut self, title: &str)
        requires
            old(self).wf(),
        ensures
            final(self).wf(),
            final(self)@ == old(self)@.insert(title@),
    {
        if !title.is_empty() {
            self.items.push(Task::new(title));
            assert(views(self.items@) =~= old(self)@.insert(title@).items);
        }
    }

    /// Gives the task at `index` the title `title`.
    pub fn set_title(&mut self, index: usize, title: String)
        requires
            old(self).wf(),
        ensures
            final(self).wf(),
            final(self)@ == old(self)@.set_title(index as nat, title@),
    {
        if index < self.items.len() {
            self.items[index].title = title;
            assert(views(self.items@) =~= old(self)@.set_title(index as nat, title@).items);
        }
    }
}

} // verus!
