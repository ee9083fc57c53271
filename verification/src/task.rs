//! Tasks and their priorities.
//!
//! A task has an identifier, a title, a completion flag, and a priority.
//! Contracts speak of tasks through [`TaskView`], the mathematical image of a
//! [`Todo`], in which the title is a sequence of characters.

use vstd::prelude::*;

verus! {

/// Urgency of a task. The display order sorts by ascending [`rank`].
#[derive(Clone, Copy, PartialEq, Eq, Structural, Debug)]
pub enum Priority {
    High,
    Medium,
    Low,
}

/// The numeric sort key of a priority: High before Medium before Low.
pub open spec fn rank(p: Priority) -> int {
    match p {
        Priority::High => 0,
        Priority::Medium => 1,
        Priority::Low => 2,
    }
}

/// The priority one cycling step advances to: High, Medium, Low, High, ...
pub open spec fn next_priority(p: Priority) -> Priority {
    match p {
        Priority::High => Priority::Medium,
        Priority::Medium => Priority::Low,
        Priority::Low => Priority::High,
    }
}

/// Cycling a priority three times returns it to where it started.
pub proof fn lemma_cycle_priority_three(p: Priority)
    ensures
        next_priority(next_priority(next_priority(p))) == p,
{
}

/// One todo entry.
pub struct Todo {
    /// Unique identifier, assigned at creation and never changed.
    pub id: u128,
    /// Human-readable title; the engine only ever stores trimmed, non-empty titles.
    pub title: String,
    /// Whether the task has been completed.
    pub completed: bool,
    /// Urgency used for ordering the list.
    pub priority: Priority,
}

/// The mathematical image of a [`Todo`]: the same fields, with the title as a
/// sequence of characters.
pub ghost struct TaskView {
    pub id: u128,
    pub title: Seq<char>,
    pub completed: bool,
    pub priority: Priority,
}

impl View for Todo {
    type V = TaskView;

    open spec fn view(&self) -> TaskView {
        TaskView {
            id: self.id,
            title: self.title@,
            completed: self.completed,
            priority: self.priority,
        }
    }
}

impl Clone for Todo {
    fn clone(&self) -> (r: Self)
        ensures
            r@ == self@,
    {
        Todo {
            id: self.id,
            title: self.title.clone(),
            completed: self.completed,
            priority: self.priority,
        }
    }
}

/// The sequence of task views of a sequence of todos.
pub open spec fn views(s: Seq<Todo>) -> Seq<TaskView> {
    Seq::new(s.len(), |i: int| s[i]@)
}

/// The view that a freshly created task with the given identifier and title has.
pub open spec fn mk_task(id: u128, title: Seq<char>) -> TaskView {
    TaskView { id, title, completed: false, priority: Priority::Medium }
}

/// The same task with its title replaced.
pub open spec fn with_title(t: TaskView, title: Seq<char>) -> TaskView {
    TaskView { title, ..t }
}

/// The same task with its completion flag replaced.
pub open spec fn with_completed(t: TaskView, completed: bool) -> TaskView {
    TaskView { completed, ..t }
}

/// The same task with its priority replaced.
pub open spec fn with_priority(t: TaskView, priority: Priority) -> TaskView {
    TaskView { priority, ..t }
}

pub(crate) proof fn lemma_views_push(s: Seq<Todo>, t: Todo)
    ensures
        views(s.push(t)) == views(s).push(t@),
{
    assert(views(s.push(t)) =~= views(s).push(t@));
}

pub(crate) proof fn lemma_views_update(s: Seq<Todo>, i: int, t: Todo)
    requires
        0 <= i < s.len(),
    ensures
        views(s.update(i, t)) == views(s).update(i, t@),
{
    assert(views(s.update(i, t)) =~= views(s).update(i, t@));
}

pub(crate) proof fn lemma_views_remove(s: Seq<Todo>, i: int)
    requires
        0 <= i < s.len(),
    ensures
        views(s.remove(i)) == views(s).remove(i),
{
    assert(views(s.remove(i)) =~= views(s).remove(i));
}

pub(crate) proof fn lemma_views_add(a: Seq<Todo>, b: Seq<Todo>)
    ensures
        views(a + b) == views(a) + views(b),
{
    assert(views(a + b) =~= views(a) + views(b));
}

/// Relies on `uuid::Uuid::new_v4`: a freshly generated random identifier.
/// Nothing is promised of the value; in particular, distinct calls are not
/// proved distinct.
#[verifier::external_body]
pub(crate) fn fresh_id() -> u128 {
    uuid::Uuid::new_v4().as_u128()
}

} // verus!
