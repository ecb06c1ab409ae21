//! What the screen shows of a state: the lines of the list, the areas it is
//! divided into, and the texts that depend on the mode.

use vstd::prelude::*;
use crate::app::Mode;
use crate::machine::ModeModel;
use crate::list::{views, StatefulList};
use crate::task::{Task, TaskModel};

verus! {

/// The line of each task, in order.
pub open spec fn label_texts(tasks: Seq<TaskModel>) -> Seq<Seq<char>> {
    Seq::new(tasks.len(), |i: int| tasks[i].label())
}

/// The heights of the areas of the screen from top to bottom, in percent:
/// the list, the box in which a title is typed if one is, and the legend.
pub open spec fn layout_heights(mode: ModeModel) -> Seq<u16> {
    match mode {
        ModeModel::Editing | ModeModel::EditingTask { .. } => seq![85u16, 10u16, 5u16],
        _ => seq![95u16, 5u16],
    }
}

/// The heading of the box in which a title is typed, in the modes that have
/// one.
pub open spec fn input_title_text(mode: ModeModel) -> Option<Seq<char>> {
    match mode {
        ModeModel::Editing => Some("New Task"@),
        ModeModel::EditingTask { .. } => Some("Edit Task"@),
        _ => None,
    }
}

/// The keys that the legend names in each mode.
pub open spec fn legend_text(mode: ModeModel) -> Seq<char> {
    match mode {
        ModeModel::Normal => "j/k: move, h/l: change state, J/K: move task, a: add, d: delete, e: edit, q: quit"@,
        ModeModel::Editing => "Enter: save, Esc: cancel"@,
        ModeModel::ConfirmDelete { .. } => "y: confirm, n/Esc: cancel"@,
        ModeModel::EditingTask { .. } => "Enter: save, Esc: cancel"@,
    }
}

/// One line for each task of the list: its glyph, a space, its title.
pub fn labels(tasks: &StatefulList<Task>) -> (r: Vec<String>)
    ensures
        views(r@) == label_texts(tasks@.items),
{
    let items = tasks.items();
    let mut r: Vec<String> = Vec::new();
    let mut i: usize = 0;
    while i < items.len()
        invariant
            i <= items.len(),
            r@.len() == i,
            forall|k: int| 0 <= k < i ==> r@[k]@ == items@[k]@.label(),
        decreases items.len() - i,
    {
        r.push(items[i].label());
        i = i + 1;
    }
    assert(views(r@) =~= label_texts(views(items@)));
    r
}

/// The heights of the areas of the screen from top to bottom, in percent.
pub fn layout(mode: &Mode) -> (r: Vec<u16>)
    ensures
        r@ == layout_heights(mode@),
{
    let mut r: Vec<u16> = Vec::new();
    match mode {
        Mode::Editing | Mode::EditingTask { .. } => {
            r.push(85);
            r.push(10);
            r.push(5);
        },
        _ => {
            r.push(95);
            r.push(5);
        },
    }
    assert(r@ =~= layout_heights(mode@));
    r
}

/// The heading of the box in which a title is typed, or `None` in a mode in
/// which nothing is typed.
pub fn input_title(mode: &Mode) -> (r: Option<&'static str>)
    ensures
        match r {
            Some(title) => input_title_text(mode@) == Some(title@),
            None => input_title_text(mode@) is None,
        },
{
    match mode {
        Mode::Editing => Some("New Task"),
        Mode::EditingTask { .. } => Some("Edit Task"),
        _ => None,
    }
}

/// The legend of the current mode.
pub fn legend(mode: &Mode) -> (r: &'static str)
    ensures
        r@ == legend_text(mode@),
{
    match mode {
        Mode::Normal => "j/k: move, h/l: change state, J/K: move task, a: add, d: delete, e: edit, q: quit",
        Mode::Editing => "Enter: save, Esc: cancel",
        Mode::ConfirmDelete { .. } => "y: confirm, n/Esc: cancel",
        Mode::EditingTask { .. } => "Enter: save, Esc: cancel",
    }
}

} // verus!
