use dashboard::priority::Priority;
use dashboard::store::{clamp_selection, IndexError, Tasks};
use dashboard::task::Task;

fn task(name: &str, priority: Priority) -> Task {
    Task::new(name.to_string(), priority, String::new())
}

fn three() -> Tasks {
    Tasks::new(vec![
        task("a", Priority::High),
        task("b", Priority::Low),
        task("c", Priority::High),
    ])
}

fn names(store: &Tasks) -> Vec<String> {
    store.tasks.iter().map(|t| t.task.clone()).collect()
}

#[test]
fn new_store_selects_nothing() {
    let store = three();
    assert_eq!(store.tasks.len(), 3);
    assert_eq!(store.selection, None);
    assert_eq!(store.cursor(), None);
}

#[test]
fn select_next_starts_at_the_first_task() {
    let mut store = three();
    store.select_next();
    assert_eq!(store.selection, Some(0));
}

#[test]
fn select_previous_starts_at_the_last_task() {
    let mut store = three();
    store.select_previous();
    assert_eq!(store.selection, Some(2));
}

#[test]
fn select_next_then_previous_returns() {
    let mut store = three();
    store.selection = Some(0);
    store.select_next();
    assert_eq!(store.selection, Some(1));
    store.select_previous();
    assert_eq!(store.selection, Some(0));
    store.selection = Some(1);
    store.select_next();
    assert_eq!(store.selection, Some(2));
    store.select_previous();
    assert_eq!(store.selection, Some(1));
}

#[test]
fn select_next_stops_at_the_last_task() {
    let mut store = three();
    store.selection = Some(2);
    store.select_next();
    assert_eq!(store.selection, Some(2));
    store.select_previous();
    assert_eq!(store.selection, Some(1));
}

#[test]
fn select_previous_stops_at_the_first_task() {
    let mut store = three();
    store.selection = Some(0);
    store.select_previous();
    assert_eq!(store.selection, Some(0));
    store.select_next();
    assert_eq!(store.selection, Some(1));
}

#[test]
fn selection_of_a_single_task_stays() {
    let mut store = Tasks::new(vec![task("only", Priority::Medium)]);
    store.selection = Some(0);
    store.select_next();
    assert_eq!(store.selection, Some(0));
    store.select_previous();
    assert_eq!(store.selection, Some(0));
}

#[test]
fn selection_moves_do_nothing_to_an_empty_store() {
    let mut store = Tasks::new(Vec::new());
    store.select_next();
    assert_eq!(store.selection, None);
    store.select_previous();
    assert_eq!(store.selection, None);
    assert!(store.tasks.is_empty());
}

#[test]
fn cursor_reads_a_selection_past_the_end_as_the_last_task() {
    let mut store = three();
    store.selection = Some(7);
    assert_eq!(store.cursor(), Some(2));
    store.select_previous();
    assert_eq!(store.selection, Some(1));
    assert_eq!(clamp_selection(3, Some(3)), Some(2));
    assert_eq!(clamp_selection(3, Some(1)), Some(1));
    assert_eq!(clamp_selection(0, Some(0)), None);
    assert_eq!(clamp_selection(3, None), None);
}

#[test]
fn remove_selected_on_empty_store_is_a_no_op() {
    let mut store = Tasks::new(Vec::new());
    store.remove_selected();
    assert!(store.tasks.is_empty());
    assert_eq!(store.selection, None);
}

#[test]
fn remove_selected_without_selection_is_a_no_op() {
    let mut store = three();
    store.remove_selected();
    assert_eq!(names(&store), ["a", "b", "c"]);
    assert_eq!(store.selection, None);
}

#[test]
fn remove_selected_in_the_middle_keeps_the_index() {
    let mut store = three();
    store.selection = Some(1);
    store.remove_selected();
    assert_eq!(names(&store), ["a", "c"]);
    assert_eq!(store.selection, Some(1));
}

#[test]
fn remove_selected_at_the_end_moves_to_the_new_last_task() {
    let mut store = three();
    store.selection = Some(2);
    store.remove_selected();
    assert_eq!(names(&store), ["a", "b"]);
    assert_eq!(store.selection, Some(1));
}

#[test]
fn remove_selected_of_the_only_task_drops_the_selection() {
    let mut store = Tasks::new(vec![task("only", Priority::Low)]);
    store.selection = Some(0);
    store.remove_selected();
    assert!(store.tasks.is_empty());
    assert_eq!(store.selection, None);
}

#[test]
fn insert_appends_and_keeps_the_selection() {
    let mut store = three();
    store.selection = Some(1);
    store.insert(task("d", Priority::Medium));
    assert_eq!(names(&store), ["a", "b", "c", "d"]);
    assert_eq!(store.selection, Some(1));
    assert_eq!(store.tasks[3].priority, Priority::Medium);
}

#[test]
fn replace_puts_the_task_in_place() {
    let mut store = three();
    store.selection = Some(0);
    assert_eq!(store.replace(1, task("z", Priority::Medium)), Ok(()));
    assert_eq!(names(&store), ["a", "z", "c"]);
    assert_eq!(store.tasks[1].priority, Priority::Medium);
    assert_eq!(store.selection, Some(0));
}

#[test]
fn replace_out_of_bounds_is_an_index_error() {
    let mut store = three();
    assert_eq!(
        store.replace(3, task("z", Priority::Medium)),
        Err(IndexError { index: 3, len: 3 })
    );
    assert_eq!(names(&store), ["a", "b", "c"]);
    let mut empty = Tasks::new(Vec::new());
    assert_eq!(
        empty.replace(0, task("z", Priority::Medium)),
        Err(IndexError { index: 0, len: 0 })
    );
    assert!(empty.tasks.is_empty());
}

#[test]
fn grouped_view_lists_high_tasks_first() {
    let store = three();
    assert_eq!(store.grouped_view(None), [0, 2, 1]);
    assert_eq!(names(&store), ["a", "b", "c"]);
}

#[test]
fn grouped_view_orders_all_three_tiers() {
    let store = Tasks::new(vec![
        task("l1", Priority::Low),
        task("m1", Priority::Medium),
        task("h1", Priority::High),
        task("l2", Priority::Low),
        task("h2", Priority::High),
        task("m2", Priority::Medium),
    ]);
    assert_eq!(store.grouped_view(None), [2, 4, 1, 5, 0, 3]);
}

#[test]
fn grouped_view_is_idempotent() {
    let store = Tasks::new(vec![
        task("l1", Priority::Low),
        task("m1", Priority::Medium),
        task("h1", Priority::High),
        task("l2", Priority::Low),
        task("h2", Priority::High),
    ]);
    let order = store.grouped_view(None);
    let regrouped = Tasks::new(order.iter().map(|&i| store.tasks[i].clone()).collect());
    assert_eq!(names(&regrouped), ["h1", "h2", "m1", "l1", "l2"]);
    assert_eq!(regrouped.grouped_view(None), [0, 1, 2, 3, 4]);
}

#[test]
fn grouped_view_with_a_filter_lists_one_tier() {
    let store = three();
    assert_eq!(store.grouped_view(Some(Priority::High)), [0, 2]);
    assert_eq!(store.grouped_view(Some(Priority::Low)), [1]);
    assert_eq!(store.grouped_view(Some(Priority::Medium)), Vec::<usize>::new());
}

#[test]
fn grouped_view_of_an_empty_store_is_empty() {
    let store = Tasks::new(Vec::new());
    assert_eq!(store.grouped_view(None), Vec::<usize>::new());
}
