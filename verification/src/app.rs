//! The todo-list engine: the task list, the current selection, the
//! interaction mode, and the two text buffers, together with every operation
//! that mutates or queries them.
//!
//! The engine keeps one invariant at all times ([`App::wf`]): when the list is
//! non-empty the selection is a valid index into it, and when the list is
//! empty there is no selection.

use vstd::prelude::*;
use vstd::string::StrSliceExecFns;
use crate::order::{lemma_sort_spec_len, lemma_sort_spec_sorted, rank_pred, sort_spec, sorted_by_rank};
use crate::search::{query_pred, title_matches};
use crate::task::{
    fresh_id, lemma_views_add, lemma_views_push, lemma_views_remove, lemma_views_update, mk_task,
    next_priority, views, with_completed, with_priority, with_title, Priority, TaskView, Todo,
};
use crate::text::{pop_char, push_char, trim_of, trim_to_string};

verus! {

/// The interaction mode: which kind of input the engine is waiting for.
/// Modes are mutually exclusive by construction.
#[derive(Clone, Copy, PartialEq, Eq, Structural, Debug)]
pub enum Mode {
    /// Browsing the list; the resting state between actions.
    Normal,
    /// Typing the title of a new task.
    AddInput,
    /// Typing a replacement title for the selected task.
    EditInput,
    /// Typing a search query.
    Search,
    /// Waiting for a yes or no answer to a deletion request.
    ConfirmDelete,
    /// Showing the help screen.
    Help,
}

/// The todo-list engine.
pub struct App {
    /// The tasks, in display order.
    pub todos: Vec<Todo>,
    /// The index of the selected task, or none when the list is empty.
    pub selected: Option<usize>,
    /// The current interaction mode.
    pub mode: Mode,
    /// Scratch text for a title being typed.
    pub input: String,
    /// The search query; kept after leaving search mode until a new search starts.
    pub search_query: String,
    /// Presentation choice only; no operation depends on it.
    pub neon_theme: bool,
}

impl App {
    /// The mathematical image of the task list.
    pub open spec fn tasks(self) -> Seq<TaskView> {
        views(self.todos@)
    }

    /// The selection invariant: a valid index exactly when the list is
    /// non-empty.
    pub open spec fn wf(self) -> bool {
        match self.selected {
            Some(i) => i < self.todos@.len(),
            None => self.todos@.len() == 0,
        }
    }

    /// Builds an engine around a loaded task list, selecting the first task
    /// when there is one, in normal mode, with empty buffers.
    pub fn new(todos: Vec<Todo>) -> (app: App)
        ensures
            app.wf(),
            app.tasks() == views(todos@),
            app.selected == (if todos@.len() > 0 {
                Some(0usize)
            } else {
                None::<usize>
            }),
            app.mode == Mode::Normal,
            app.input@ == Seq::<char>::empty(),
            app.search_query@ == Seq::<char>::empty(),
            app.neon_theme,
    {
        let selected = if todos.is_empty() {
            None
        } else {
            Some(0usize)
        };
        App {
            todos,
            selected,
            mode: Mode::Normal,
            input: String::new(),
            search_query: String::new(),
            neon_theme: true,
        }
    }

    /// Re-sorts the list stably by ascending priority rank and, when the list
    /// is non-empty, resets the selection to the top.
    fn sort_by_priority(&mut self)
        requires
            old(self).todos@.len() == 0 ==> old(self).selected is None,
        ensures
            final(self).wf(),
            final(self).tasks() == sort_spec(old(self).tasks()),
            final(self).tasks().len() == old(self).tasks().len(),
            sorted_by_rank(final(self).tasks()),
            final(self).selected == (if old(self).tasks().len() > 0 {
                Some(0usize)
            } else {
                old(self).selected
            }),
            final(self).mode == old(self).mode,
            final(self).input == old(self).input,
            final(self).search_query == old(self).search_query,
            final(self).neon_theme == old(self).neon_theme,
    {
        let ghost orig = views(self.todos@);
        let mut high: Vec<Todo> = Vec::new();
        let mut med: Vec<Todo> = Vec::new();
        let mut low: Vec<Todo> = Vec::new();
        let n = self.todos.len();
        let mut i: usize = 0;
        while i < n
            invariant
                i <= n,
                n == self.todos@.len(),
                orig == views(self.todos@),
                views(high@) == orig.take(i as int).filter(rank_pred(0)),
                views(med@) == orig.take(i as int).filter(rank_pred(1)),
                views(low@) == orig.take(i as int).filter(rank_pred(2)),
            decreases n - i,
        {
            let t = self.todos[i].clone();
            let ghost h0 = high@;
            let ghost m0 = med@;
            let ghost l0 = low@;
            proof {
                let pre = orig.take(i as int);
                assert(orig.take(i as int + 1) =~= pre.push(orig[i as int]));
                crate::order::lemma_filter_push(pre, orig[i as int], rank_pred(0));
                crate::order::lemma_filter_push(pre, orig[i as int], rank_pred(1));
                crate::order::lemma_filter_push(pre, orig[i as int], rank_pred(2));
                assert(t@ == orig[i as int]);
            }
            match t.priority {
                Priority::High => {
                    high.push(t);
                    proof {
                        lemma_views_push(h0, high@.last());
                        assert(high@ =~= h0.push(high@.last()));
                    }
                },
                Priority::Medium => {
                    med.push(t);
                    proof {
                        lemma_views_push(m0, med@.last());
                        assert(med@ =~= m0.push(med@.last()));
                    }
                },
                Priority::Low => {
                    low.push(t);
                    proof {
                        lemma_views_push(l0, low@.last());
                        assert(low@ =~= l0.push(low@.last()));
                    }
                },
            }
            i = i + 1;
        }
        proof {
            assert(orig.take(n as int) =~= orig);
        }
        let ghost hs = high@;
        let ghost ms = med@;
        let ghost ls = low@;
        self.todos = high;
        self.todos.append(&mut med);
        self.todos.append(&mut low);
        proof {
            lemma_views_add(hs, ms);
            lemma_views_add(hs + ms, ls);
            assert(self.todos@ == (hs + ms) + ls);
            lemma_sort_spec_len(orig);
            lemma_sort_spec_sorted(orig);
        }
        if !self.todos.is_empty() {
            self.selected = Some(0);
        }
    }

    /// Begins adding a task: clears the input buffer and enters add mode.
    pub fn start_input(&mut self)
        requires
            old(self).wf(),
        ensures
            final(self).wf(),
            final(self).mode == Mode::AddInput,
            final(self).input@ == Seq::<char>::empty(),
            final(self).todos == old(self).todos,
            final(self).selected == old(self).selected,
            final(self).search_query == old(self).search_query,
            final(self).neon_theme == old(self).neon_theme,
    {
        self.input = String::new();
        self.mode = Mode::AddInput;
    }

    /// Commits the input buffer as a new task. A buffer that trims to nothing
    /// creates no task; otherwise a task with a fresh identifier, the trimmed
    /// title, medium priority and not completed is added, the list is
    /// re-sorted, and the selection moves to the top. Either way the buffer is
    /// cleared and the engine returns to normal mode.
    pub fn submit_input(&mut self)
        requires
            old(self).wf(),
        ensures
            final(self).wf(),
            final(self).mode == Mode::Normal,
            final(self).input@ == Seq::<char>::empty(),
            final(self).search_query == old(self).search_query,
            final(self).neon_theme == old(self).neon_theme,
            trim_of(old(self).input@).len() == 0 ==> final(self).todos == old(self).todos
                && final(self).selected == old(self).selected,
            old(self).input@.len() == 0 ==> final(self).todos == old(self).todos
                && final(self).selected == old(self).selected,
            trim_of(old(self).input@).len() > 0 ==> (exists|tid: u128|
                final(self).tasks() == sort_spec(
                    old(self).tasks().push(#[trigger] mk_task(tid, trim_of(old(self).input@))),
                )) && final(self).tasks().len() == old(self).tasks().len() + 1
                && sorted_by_rank(final(self).tasks()) && final(self).selected == Some(0usize),
    {
        let trimmed = trim_to_string(self.input.as_str());
        if trimmed.as_str().unicode_len() > 0 {
            let id = fresh_id();
            let ghost pre = self.todos@;
            let t = Todo { id, title: trimmed, completed: false, priority: Priority::Medium };
            proof {
                assert(t@ == mk_task(id, trim_of(old(self).input@)));
            }
            self.todos.push(t);
            proof {
                lemma_views_push(pre, self.todos@.last());
                assert(self.todos@ =~= pre.push(self.todos@.last()));
            }
            self.sort_by_priority();
            proof {
                assert(self.tasks() == sort_spec(
                    old(self).tasks().push(mk_task(id, trim_of(old(self).input@)))));
            }
        }
        self.input = String::new();
        self.mode = Mode::Normal;
    }

    /// Begins editing the selected task: loads its title into the input
    /// buffer and enters edit mode. Does nothing when nothing is selected.
    pub fn start_edit(&mut self)
        requires
            old(self).wf(),
        ensures
            final(self).wf(),
            old(self).selected is None ==> *final(self) == *old(self),
            old(self).selected matches Some(i) ==> final(self).mode == Mode::EditInput
                && final(self).input@ == old(self).tasks()[i as int].title
                && final(self).todos == old(self).todos
                && final(self).selected == old(self).selected
                && final(self).search_query == old(self).search_query
                && final(self).neon_theme == old(self).neon_theme,
    {
        if let Some(i) = self.selected {
            self.input = self.todos[i].title.clone();
            self.mode = Mode::EditInput;
        }
    }

    /// Commits the input buffer as the selected task's new title. A buffer
    /// that trims to nothing leaves the title unchanged. The list is
    /// re-sorted either way, the buffer is cleared, and the engine returns to
    /// normal mode.
    pub fn submit_edit(&mut self)
        requires
            old(self).wf(),
        ensures
            final(self).wf(),
            final(self).mode == Mode::Normal,
            final(self).input@ == Seq::<char>::empty(),
            final(self).search_query == old(self).search_query,
            final(self).neon_theme == old(self).neon_theme,
            final(self).tasks().len() == old(self).tasks().len(),
            sorted_by_rank(final(self).tasks()),
            final(self).selected == (if old(self).tasks().len() > 0 {
                Some(0usize)
            } else {
                None::<usize>
            }),
            old(self).selected matches Some(i) ==> trim_of(old(self).input@).len() > 0
                ==> final(self).tasks() == sort_spec(
                old(self).tasks().update(
                    i as int,
                    with_title(old(self).tasks()[i as int], trim_of(old(self).input@)),
                ),
            ),
            (old(self).selected is None || trim_of(old(self).input@).len() == 0) ==> final(self).tasks() == sort_spec(old(self).tasks()),
    {
        let trimmed = trim_to_string(self.input.as_str());
        if let Some(i) = self.selected {
            if trimmed.as_str().unicode_len() > 0 {
                let ghost pre = self.todos@;
                let mut t = self.todos.remove(i);
                t.title = trimmed;
                self.todos.insert(i, t);
                proof {
                    lemma_views_update(pre, i as int, self.todos@[i as int]);
                    assert(self.todos@ =~= pre.update(i as int, self.todos@[i as int]));
                }
            }
        }
        self.input = String::new();
        self.mode = Mode::Normal;
        self.sort_by_priority();
    }

    /// Moves the selection down one task, wrapping from the last to the
    /// first. Does nothing when the list is empty.
    pub fn next(&mut self)
        requires
            old(self).wf(),
        ensures
            final(self).wf(),
            final(self).todos == old(self).todos,
            final(self).mode == old(self).mode,
            final(self).input == old(self).input,
            final(self).search_query == old(self).search_query,
            final(self).neon_theme == old(self).neon_theme,
            old(self).tasks().len() == 0 ==> final(self).selected == old(self).selected,
            old(self).tasks().len() > 0 ==> final(self).selected == (match old(self).selected {
                Some(i) => if i + 1 < old(self).todos@.len() {
                    Some((i + 1) as usize)
                } else {
                    Some(0usize)
                },
                None => Some(0usize),
            }),
    {
        if !self.todos.is_empty() {
            let i = match self.selected {
                Some(i) => if i < self.todos.len() - 1 {
                    i + 1
                } else {
                    0
                },
                None => 0,
            };
            self.selected = Some(i);
        }
    }

    /// Moves the selection up one task, wrapping from the first to the last.
    /// Does nothing when the list is empty.
    pub fn previous(&mut self)
        requires
            old(self).wf(),
        ensures
            final(self).wf(),
            final(self).todos == old(self).todos,
            final(self).mode == old(self).mode,
            final(self).input == old(self).input,
            final(self).search_query == old(self).search_query,
            final(self).neon_theme == old(self).neon_theme,
            old(self).tasks().len() == 0 ==> final(self).selected == old(self).selected,
            old(self).tasks().len() > 0 ==> final(self).selected == (match old(self).selected {
                Some(i) => if i > 0 {
                    Some((i - 1) as usize)
                } else {
                    Some((old(self).todos@.len() - 1) as usize)
                },
                None => Some((old(self).todos@.len() - 1) as usize),
            }),
    {
        if !self.todos.is_empty() {
            let i = match self.selected {
                Some(i) => if i > 0 {
                    i - 1
                } else {
                    self.todos.len() - 1
                },
                None => self.todos.len() - 1,
            };
            self.selected = Some(i);
        }
    }

    /// Flips the completion flag of the selected task. Does nothing when
    /// nothing is selected. Never reorders the list.
    pub fn toggle(&mut self)
        requires
            old(self).wf(),
        ensures
            final(self).wf(),
            old(self).selected is None ==> *final(self) == *old(self),
            old(self).selected matches Some(i) ==> final(self).tasks() == old(self).tasks().update(
                i as int,
                with_completed(old(self).tasks()[i as int], !old(self).tasks()[i as int].completed),
            ) && final(self).selected == old(self).selected && final(self).mode == old(self).mode
                && final(self).input == old(self).input
                && final(self).search_query == old(self).search_query
                && final(self).neon_theme == old(self).neon_theme,
    {
        if let Some(i) = self.selected {
            let ghost pre = self.todos@;
            let mut t = self.todos.remove(i);
            t.completed = !t.completed;
            self.todos.insert(i, t);
            proof {
                lemma_views_update(pre, i as int, self.todos@[i as int]);
                assert(self.todos@ =~= pre.update(i as int, self.todos@[i as int]));
            }
        }
    }

    /// Removes the selected task. When the list becomes empty the selection
    /// is cleared; otherwise the task that slid into the deleted slot is
    /// selected, or the new last task when the deleted one was last. Does
    /// nothing when nothing is selected.
    pub fn delete(&mut self)
        requires
            old(self).wf(),
        ensures
            final(self).wf(),
            final(self).mode == old(self).mode,
            final(self).input == old(self).input,
            final(self).search_query == old(self).search_query,
            final(self).neon_theme == old(self).neon_theme,
            old(self).selected is None ==> *final(self) == *old(self),
            old(self).selected matches Some(i) ==> final(self).tasks() == old(self).tasks().remove(i as int) && final(self).selected == (if old(self).tasks().len()
                == 1 {
                None::<usize>
            } else if i as int <= old(self).tasks().len() - 2 {
                Some(i)
            } else {
                Some((old(self).tasks().len() - 2) as usize)
            }),
    {
        if let Some(i) = self.selected {
            let ghost pre = self.todos@;
            self.todos.remove(i);
            proof {
                lemma_views_remove(pre, i as int);
            }
            if self.todos.is_empty() {
                self.selected = None;
            } else {
                let last = self.todos.len() - 1;
                self.selected = Some(if i < last {
                    i
                } else {
                    last
                });
            }
        }
    }

    /// Advances the selected task's priority one cycling step (High to
    /// Medium to Low back to High), re-sorts, and moves the selection to the
    /// top. Does nothing when nothing is selected.
    pub fn cycle_priority(&mut self)
        requires
            old(self).wf(),
        ensures
            final(self).wf(),
            final(self).mode == old(self).mode,
            final(self).input == old(self).input,
            final(self).search_query == old(self).search_query,
            final(self).neon_theme == old(self).neon_theme,
            old(self).selected is None ==> *final(self) == *old(self),
            old(self).selected matches Some(i) ==> final(self).tasks() == sort_spec(
                old(self).tasks().update(
                    i as int,
                    with_priority(
                        old(self).tasks()[i as int],
                        next_priority(old(self).tasks()[i as int].priority),
                    ),
                ),
            ) && final(self).tasks().len() == old(self).tasks().len() && sorted_by_rank(
                final(self).tasks(),
            ) && final(self).selected == Some(0usize),
    {
        if let Some(i) = self.selected {
            let ghost pre = self.todos@;
            let mut t = self.todos.remove(i);
            t.priority = match t.priority {
                Priority::High => Priority::Medium,
                Priority::Medium => Priority::Low,
                Priority::Low => Priority::High,
            };
            self.todos.insert(i, t);
            proof {
                lemma_views_update(pre, i as int, self.todos@[i as int]);
                assert(self.todos@ =~= pre.update(i as int, self.todos@[i as int]));
            }
            self.sort_by_priority();
        }
    }

    /// Asks for confirmation before deleting: enters confirm-delete mode,
    /// whether or not anything is selected.
    pub fn request_delete(&mut self)
        requires
            old(self).wf(),
        ensures
            final(self).wf(),
            *final(self) == (App { mode: Mode::ConfirmDelete, ..*old(self) }),
    {
        self.mode = Mode::ConfirmDelete;
    }

    /// Answers a deletion request with yes: removes the selected task as
    /// [`App::delete`] does (a no-op when nothing is selected) and returns to
    /// normal mode.
    pub fn confirm_delete_yes(&mut self)
        requires
            old(self).wf(),
        ensures
            final(self).wf(),
            final(self).mode == Mode::Normal,
            final(self).input == old(self).input,
            final(self).search_query == old(self).search_query,
            final(self).neon_theme == old(self).neon_theme,
            old(self).selected is None ==> final(self).todos == old(self).todos && final(self).selected == old(self).selected,
            old(self).selected matches Some(i) ==> final(self).tasks() == old(self).tasks().remove(i as int) && final(self).selected == (if old(self).tasks().len()
                == 1 {
                None::<usize>
            } else if i as int <= old(self).tasks().len() - 2 {
                Some(i)
            } else {
                Some((old(self).tasks().len() - 2) as usize)
            }),
    {
        self.delete();
        self.mode = Mode::Normal;
    }

    /// Answers a deletion request with no: returns to normal mode without
    /// deleting anything.
    pub fn confirm_delete_no(&mut self)
        requires
            old(self).wf(),
        ensures
            final(self).wf(),
            *final(self) == (App { mode: Mode::Normal, ..*old(self) }),
    {
        self.mode = Mode::Normal;
    }

    /// Toggles the help screen: opens it from normal mode, closes it back to
    /// normal mode, and does nothing in any other mode.
    pub fn toggle_help(&mut self)
        requires
            old(self).wf(),
        ensures
            final(self).wf(),
            old(self).mode == Mode::Normal ==> *final(self) == (App { mode: Mode::Help, ..*old(self) }),
            old(self).mode == Mode::Help ==> *final(self) == (App { mode: Mode::Normal, ..*old(self) }),
            old(self).mode != Mode::Normal && old(self).mode != Mode::Help ==> *final(self) == *old(self),
    {
        if self.mode == Mode::Help {
            self.mode = Mode::Normal;
        } else if self.mode == Mode::Normal {
            self.mode = Mode::Help;
        }
    }

    /// Closes the help screen, returning to normal mode. Does nothing in any
    /// other mode.
    pub fn close_help(&mut self)
        requires
            old(self).wf(),
        ensures
            final(self).wf(),
            old(self).mode == Mode::Help ==> *final(self) == (App { mode: Mode::Normal, ..*old(self) }),
            old(self).mode != Mode::Help ==> *final(self) == *old(self),
    {
        if self.mode == Mode::Help {
            self.mode = Mode::Normal;
        }
    }

    /// Flips the colour theme. Purely presentational.
    pub fn toggle_theme(&mut self)
        requires
            old(self).wf(),
        ensures
            final(self).wf(),
            *final(self) == (App { neon_theme: !old(self).neon_theme, ..*old(self) }),
    {
        self.neon_theme = !self.neon_theme;
    }

    /// Starts a new search: enters search mode and clears the previous query.
    pub fn start_search(&mut self)
        requires
            old(self).wf(),
        ensures
            final(self).wf(),
            final(self).mode == Mode::Search,
            final(self).search_query@ == Seq::<char>::empty(),
            final(self).todos == old(self).todos,
            final(self).selected == old(self).selected,
            final(self).input == old(self).input,
            final(self).neon_theme == old(self).neon_theme,
    {
        self.mode = Mode::Search;
        self.search_query = String::new();
    }

    /// Leaves search mode. The query is kept, so the filter stays visible
    /// until a new search starts.
    pub fn close_search(&mut self)
        requires
            old(self).wf(),
        ensures
            final(self).wf(),
            *final(self) == (App { mode: Mode::Normal, ..*old(self) }),
    {
        self.mode = Mode::Normal;
    }

    /// Appends one typed character to the search query.
    pub fn push_search_char(&mut self, c: char)
        requires
            old(self).wf(),
        ensures
            final(self).wf(),
            final(self).search_query@ == old(self).search_query@.push(c),
            final(self).todos == old(self).todos,
            final(self).selected == old(self).selected,
            final(self).mode == old(self).mode,
            final(self).input == old(self).input,
            final(self).neon_theme == old(self).neon_theme,
    {
        push_char(&mut self.search_query, c);
    }

    /// Erases the last character of the search query, if any.
    pub fn pop_search_char(&mut self)
        requires
            old(self).wf(),
        ensures
            final(self).wf(),
            final(self).search_query@ == (if old(self).search_query@.len() > 0 {
                old(self).search_query@.drop_last()
            } else {
                old(self).search_query@
            }),
            final(self).todos == old(self).todos,
            final(self).selected == old(self).selected,
            final(self).mode == old(self).mode,
            final(self).input == old(self).input,
            final(self).neon_theme == old(self).neon_theme,
    {
        let _ = pop_char(&mut self.search_query);
    }

    /// Appends one typed character to the input buffer.
    pub fn push_input_char(&mut self, c: char)
        requires
            old(self).wf(),
        ensures
            final(self).wf(),
            final(self).input@ == old(self).input@.push(c),
            final(self).todos == old(self).todos,
            final(self).selected == old(self).selected,
            final(self).mode == old(self).mode,
            final(self).search_query == old(self).search_query,
            final(self).neon_theme == old(self).neon_theme,
    {
        push_char(&mut self.input, c);
    }

    /// Erases the last character of the input buffer, if any.
    pub fn pop_input_char(&mut self)
        requires
            old(self).wf(),
        ensures
            final(self).wf(),
            final(self).input@ == (if old(self).input@.len() > 0 {
                old(self).input@.drop_last()
            } else {
                old(self).input@
            }),
            final(self).todos == old(self).todos,
            final(self).selected == old(self).selected,
            final(self).mode == old(self).mode,
            final(self).search_query == old(self).search_query,
            final(self).neon_theme == old(self).neon_theme,
    {
        let _ = pop_char(&mut self.input);
    }

    /// Cancels title entry: discards the buffer and returns to normal mode.
    /// The list and the selection are untouched.
    pub fn cancel_input(&mut self)
        requires
            old(self).wf(),
        ensures
            final(self).wf(),
            final(self).mode == Mode::Normal,
            final(self).input@ == Seq::<char>::empty(),
            final(self).todos == old(self).todos,
            final(self).selected == old(self).selected,
            final(self).search_query == old(self).search_query,
            final(self).neon_theme == old(self).neon_theme,
    {
        self.input = String::new();
        self.mode = Mode::Normal;
    }

    /// The tasks whose titles match the current search query, in list order.
    /// With an empty query that is every task. The list itself is never
    /// changed by filtering.
    pub fn filtered_todos(&self) -> (r: Vec<Todo>)
        ensures
            views(r@) == self.tasks().filter(query_pred(self.search_query@)),
    {
        let mut out: Vec<Todo> = Vec::new();
        let n = self.todos.len();
        let mut i: usize = 0;
        while i < n
            invariant
                i <= n,
                n == self.todos@.len(),
                views(out@) == self.tasks().take(i as int).filter(query_pred(self.search_query@)),
            decreases n - i,
        {
            proof {
                let pre = self.tasks().take(i as int);
                assert(self.tasks().take(i as int + 1) =~= pre.push(self.tasks()[i as int]));
                crate::order::lemma_filter_push(
                    pre,
                    self.tasks()[i as int],
                    query_pred(self.search_query@),
                );
            }
            let keep = title_matches(self.todos[i].title.as_str(), self.search_query.as_str());
            if keep {
                let ghost o0 = out@;
                let t = self.todos[i].clone();
                out.push(t);
                proof {
                    lemma_views_push(o0, out@.last());
                    assert(out@ =~= o0.push(out@.last()));
                }
            }
            i = i + 1;
        }
        proof {
            assert(self.tasks().take(n as int) =~= self.tasks());
        }
        out
    }
}

} // verus!
