use todotui::app::{App, Mode};
use todotui::task::{Priority, Todo};

fn task(id: u128, title: &str, completed: bool, priority: Priority) -> Todo {
    Todo { id, title: title.to_string(), completed, priority }
}

fn type_text(app: &mut App, text: &str) {
    for c in text.chars() {
        app.push_input_char(c);
    }
}

fn add(app: &mut App, title: &str) {
    app.start_input();
    type_text(app, title);
    app.submit_input();
}

fn check_selection_invariant(app: &App) {
    match app.selected {
        Some(i) => assert!(!app.todos.is_empty() && i < app.todos.len()),
        None => assert!(app.todos.is_empty()),
    }
}

fn ranks_non_decreasing(app: &App) -> bool {
    let rank = |p: &Priority| match p {
        Priority::High => 0,
        Priority::Medium => 1,
        Priority::Low => 2,
    };
    app.todos.windows(2).all(|w| rank(&w[0].priority) <= rank(&w[1].priority))
}

#[test]
fn new_empty_has_no_selection() {
    let app = App::new(Vec::new());
    assert!(app.todos.is_empty());
    assert_eq!(app.selected, None);
    assert_eq!(app.mode, Mode::Normal);
    assert!(app.input.is_empty());
    assert!(app.search_query.is_empty());
}

#[test]
fn new_nonempty_selects_first() {
    let app = App::new(vec![task(1, "one", false, Priority::Medium)]);
    assert_eq!(app.selected, Some(0));
    assert_eq!(app.todos[0].title, "one");
}

#[test]
fn add_counts_and_unique_ids() {
    let mut app = App::new(Vec::new());
    add(&mut app, "alpha");
    add(&mut app, "beta");
    add(&mut app, "gamma");
    assert_eq!(app.todos.len(), 3);
    for t in &app.todos {
        assert!(!t.completed);
        assert!(matches!(t.priority, Priority::Medium));
    }
    let ids: Vec<u128> = app.todos.iter().map(|t| t.id).collect();
    assert!(ids[0] != ids[1] && ids[1] != ids[2] && ids[0] != ids[2]);
    let titles: Vec<&str> = app.todos.iter().map(|t| t.title.as_str()).collect();
    assert_eq!(titles, vec!["alpha", "beta", "gamma"]);
}

#[test]
fn blank_add_changes_nothing() {
    let mut app = App::new(Vec::new());
    add(&mut app, "");
    assert_eq!(app.todos.len(), 0);
    assert_eq!(app.selected, None);
    add(&mut app, "   ");
    assert_eq!(app.todos.len(), 0);
    assert_eq!(app.selected, None);
    add(&mut app, "real");
    add(&mut app, "   ");
    assert_eq!(app.todos.len(), 1);
    assert_eq!(app.mode, Mode::Normal);
    assert!(app.input.is_empty());
}

#[test]
fn added_title_is_trimmed() {
    let mut app = App::new(Vec::new());
    add(&mut app, "  hello world  ");
    assert_eq!(app.todos.len(), 1);
    assert_eq!(app.todos[0].title, "hello world");
}

#[test]
fn selection_invariant_through_mixed_operations() {
    let mut app = App::new(Vec::new());
    check_selection_invariant(&app);
    add(&mut app, "a");
    check_selection_invariant(&app);
    add(&mut app, "b");
    check_selection_invariant(&app);
    app.next();
    check_selection_invariant(&app);
    app.cycle_priority();
    check_selection_invariant(&app);
    app.request_delete();
    app.confirm_delete_yes();
    check_selection_invariant(&app);
    app.toggle();
    check_selection_invariant(&app);
    app.previous();
    check_selection_invariant(&app);
    app.request_delete();
    app.confirm_delete_yes();
    check_selection_invariant(&app);
    assert!(app.todos.is_empty());
}

#[test]
fn sort_triggering_operations_sort_and_select_top() {
    let mut app = App::new(vec![
        task(1, "low", false, Priority::Low),
        task(2, "high", false, Priority::High),
    ]);
    add(&mut app, "medium");
    assert!(ranks_non_decreasing(&app));
    assert_eq!(app.selected, Some(0));

    app.next();
    app.cycle_priority();
    assert!(ranks_non_decreasing(&app));
    assert_eq!(app.selected, Some(0));

    app.next();
    app.start_edit();
    app.pop_input_char();
    type_text(&mut app, "x");
    app.submit_edit();
    assert!(ranks_non_decreasing(&app));
    assert_eq!(app.selected, Some(0));
}

#[test]
fn delete_middle_selects_slid_task() {
    let mut app = App::new(vec![
        task(1, "a", false, Priority::Medium),
        task(2, "b", false, Priority::Medium),
        task(3, "c", false, Priority::Medium),
    ]);
    app.next();
    assert_eq!(app.selected, Some(1));
    app.request_delete();
    app.confirm_delete_yes();
    assert_eq!(app.todos.len(), 2);
    assert_eq!(app.selected, Some(1));
    let titles: Vec<&str> = app.todos.iter().map(|t| t.title.as_str()).collect();
    assert_eq!(titles, vec!["a", "c"]);
}

#[test]
fn delete_last_selects_new_last() {
    let mut app = App::new(vec![
        task(1, "a", false, Priority::Medium),
        task(2, "b", false, Priority::Medium),
        task(3, "c", false, Priority::Medium),
    ]);
    app.previous();
    assert_eq!(app.selected, Some(2));
    app.request_delete();
    app.confirm_delete_yes();
    assert_eq!(app.todos.len(), 2);
    assert_eq!(app.selected, Some(1));
}

#[test]
fn delete_only_task_empties_list() {
    let mut app = App::new(vec![task(1, "only", false, Priority::Medium)]);
    app.request_delete();
    assert_eq!(app.mode, Mode::ConfirmDelete);
    app.confirm_delete_yes();
    assert_eq!(app.mode, Mode::Normal);
    assert!(app.todos.is_empty());
    assert_eq!(app.selected, None);
    app.next();
    assert_eq!(app.selected, None);
    app.previous();
    assert_eq!(app.selected, None);
}

#[test]
fn confirm_delete_no_keeps_task() {
    let mut app = App::new(vec![task(1, "keep", false, Priority::Medium)]);
    app.request_delete();
    app.confirm_delete_no();
    assert_eq!(app.mode, Mode::Normal);
    assert_eq!(app.todos.len(), 1);
    assert_eq!(app.selected, Some(0));
}

#[test]
fn delete_with_no_selection_is_no_op() {
    let mut app = App::new(Vec::new());
    app.request_delete();
    app.confirm_delete_yes();
    assert!(app.todos.is_empty());
    assert_eq!(app.selected, None);
    assert_eq!(app.mode, Mode::Normal);
}

#[test]
fn cycle_priority_three_times_round_trips() {
    for start in [Priority::High, Priority::Medium, Priority::Low] {
        let mut app = App::new(vec![task(1, "solo", false, start)]);
        for _ in 0..3 {
            app.cycle_priority();
        }
        assert!(app.todos[0].priority == start);
    }
}

#[test]
fn cycle_priority_steps() {
    let mut app = App::new(vec![task(1, "solo", false, Priority::High)]);
    app.cycle_priority();
    assert!(matches!(app.todos[0].priority, Priority::Medium));
    app.cycle_priority();
    assert!(matches!(app.todos[0].priority, Priority::Low));
    app.cycle_priority();
    assert!(matches!(app.todos[0].priority, Priority::High));
}

#[test]
fn empty_query_filter_returns_all_in_order() {
    let app = App::new(vec![
        task(1, "first", false, Priority::High),
        task(2, "second", true, Priority::Low),
    ]);
    let filtered = app.filtered_todos();
    assert_eq!(filtered.len(), 2);
    assert_eq!(filtered[0].title, "first");
    assert_eq!(filtered[1].title, "second");
}

#[test]
fn unmatched_query_filter_returns_nothing_and_mutates_nothing() {
    let mut app = App::new(vec![
        task(1, "Buy milk", false, Priority::Medium),
        task(2, "Write report", false, Priority::Medium),
    ]);
    app.start_search();
    for c in "zzz".chars() {
        app.push_search_char(c);
    }
    let filtered = app.filtered_todos();
    assert!(filtered.is_empty());
    assert_eq!(app.todos.len(), 2);
    assert_eq!(app.todos[0].title, "Buy milk");
    assert_eq!(app.todos[1].title, "Write report");
}

#[test]
fn filter_is_case_insensitive() {
    let mut app = App::new(vec![
        task(1, "Buy milk", false, Priority::Medium),
        task(2, "WRITE REPORT", false, Priority::Medium),
    ]);
    app.start_search();
    for c in "MILK".chars() {
        app.push_search_char(c);
    }
    let filtered = app.filtered_todos();
    assert_eq!(filtered.len(), 1);
    assert_eq!(filtered[0].title, "Buy milk");

    app.start_search();
    for c in "report".chars() {
        app.push_search_char(c);
    }
    let filtered = app.filtered_todos();
    assert_eq!(filtered.len(), 1);
    assert_eq!(filtered[0].title, "WRITE REPORT");
}

#[test]
fn filter_matches_substring_with_space() {
    let mut app = App::new(vec![task(1, "Buy milk", false, Priority::Medium)]);
    app.start_search();
    for c in "y m".chars() {
        app.push_search_char(c);
    }
    assert_eq!(app.filtered_todos().len(), 1);
    app.start_search();
    for c in "milky".chars() {
        app.push_search_char(c);
    }
    assert!(app.filtered_todos().is_empty());
}

#[test]
fn add_scenario_keeps_stable_order() {
    let mut app = App::new(vec![
        task(1, "Write report", false, Priority::Medium),
        task(2, "Buy milk", false, Priority::Low),
    ]);
    add(&mut app, "Call plumber");
    let titles: Vec<&str> = app.todos.iter().map(|t| t.title.as_str()).collect();
    assert_eq!(titles, vec!["Write report", "Call plumber", "Buy milk"]);
    assert!(matches!(app.todos[1].priority, Priority::Medium));
    assert_eq!(app.selected, Some(0));
}

#[test]
fn cycle_scenario_lifts_low_task_to_top() {
    let mut app = App::new(vec![
        task(1, "Write report", false, Priority::Medium),
        task(2, "Buy milk", false, Priority::Low),
    ]);
    app.next();
    assert_eq!(app.selected, Some(1));
    app.cycle_priority();
    assert!(matches!(app.todos[0].priority, Priority::High));
    assert_eq!(app.todos[0].title, "Buy milk");
    assert_eq!(app.selected, Some(0));
}

#[test]
fn start_edit_preloads_title() {
    let mut app = App::new(vec![task(1, "old title", false, Priority::Medium)]);
    app.start_edit();
    assert_eq!(app.mode, Mode::EditInput);
    assert_eq!(app.input, "old title");
}

#[test]
fn submit_edit_replaces_title_in_place() {
    let mut app = App::new(vec![task(7, "before", true, Priority::Low)]);
    app.start_edit();
    for _ in 0.."before".len() {
        app.pop_input_char();
    }
    type_text(&mut app, "  after  ");
    app.submit_edit();
    assert_eq!(app.todos.len(), 1);
    assert_eq!(app.todos[0].title, "after");
    assert_eq!(app.todos[0].id, 7);
    assert!(app.todos[0].completed);
    assert!(matches!(app.todos[0].priority, Priority::Low));
    assert_eq!(app.mode, Mode::Normal);
    assert!(app.input.is_empty());
}

#[test]
fn blank_edit_keeps_original_title() {
    let mut app = App::new(vec![task(1, "keep me", false, Priority::Medium)]);
    app.start_edit();
    for _ in 0.."keep me".len() {
        app.pop_input_char();
    }
    type_text(&mut app, "   ");
    app.submit_edit();
    assert_eq!(app.todos[0].title, "keep me");
    assert_eq!(app.mode, Mode::Normal);
    assert!(app.input.is_empty());
}

#[test]
fn edit_with_no_selection_is_no_op() {
    let mut app = App::new(Vec::new());
    app.start_edit();
    assert_eq!(app.mode, Mode::Normal);
    assert!(app.input.is_empty());
}

#[test]
fn toggle_flips_completed_without_reordering() {
    let mut app = App::new(vec![
        task(1, "a", false, Priority::Low),
        task(2, "b", false, Priority::High),
    ]);
    app.toggle();
    assert!(app.todos[0].completed);
    assert_eq!(app.todos[0].title, "a");
    assert_eq!(app.todos[1].title, "b");
    app.toggle();
    assert!(!app.todos[0].completed);
}

#[test]
fn navigation_wraps_both_ways() {
    let mut app = App::new(vec![
        task(1, "a", false, Priority::Medium),
        task(2, "b", false, Priority::Medium),
        task(3, "c", false, Priority::Medium),
    ]);
    assert_eq!(app.selected, Some(0));
    app.next();
    assert_eq!(app.selected, Some(1));
    app.next();
    assert_eq!(app.selected, Some(2));
    app.next();
    assert_eq!(app.selected, Some(0));
    app.previous();
    assert_eq!(app.selected, Some(2));
    app.previous();
    assert_eq!(app.selected, Some(1));
}

#[test]
fn search_query_survives_close_until_new_search() {
    let mut app = App::new(Vec::new());
    app.start_search();
    assert_eq!(app.mode, Mode::Search);
    for c in "abc".chars() {
        app.push_search_char(c);
    }
    app.close_search();
    assert_eq!(app.mode, Mode::Normal);
    assert_eq!(app.search_query, "abc");
    app.start_search();
    assert!(app.search_query.is_empty());
}

#[test]
fn pop_chars_erase_from_the_end() {
    let mut app = App::new(Vec::new());
    app.start_input();
    type_text(&mut app, "abc");
    app.pop_input_char();
    assert_eq!(app.input, "ab");
    app.start_search();
    for c in "xy".chars() {
        app.push_search_char(c);
    }
    app.pop_search_char();
    assert_eq!(app.search_query, "x");
    app.pop_search_char();
    app.pop_search_char();
    assert!(app.search_query.is_empty());
}

#[test]
fn cancel_input_discards_buffer() {
    let mut app = App::new(vec![task(1, "solo", false, Priority::Medium)]);
    app.start_input();
    type_text(&mut app, "unfinished");
    app.cancel_input();
    assert_eq!(app.mode, Mode::Normal);
    assert!(app.input.is_empty());
    assert_eq!(app.todos.len(), 1);
}

#[test]
fn help_toggles_and_closes() {
    let mut app = App::new(Vec::new());
    app.toggle_help();
    assert_eq!(app.mode, Mode::Help);
    app.toggle_help();
    assert_eq!(app.mode, Mode::Normal);
    app.toggle_help();
    app.close_help();
    assert_eq!(app.mode, Mode::Normal);
}

#[test]
fn theme_toggle_flips_flag() {
    let mut app = App::new(Vec::new());
    assert!(app.neon_theme);
    app.toggle_theme();
    assert!(!app.neon_theme);
    app.toggle_theme();
    assert!(app.neon_theme);
}
