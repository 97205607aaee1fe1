use phab::task_service::{new, FetchWatchlistInput};

#[test]
fn fetch_watchlist_answers_fixed_task() {
    let service = new();
    let out = service.fetch_watchlist(&FetchWatchlistInput {});
    assert_eq!(out.tasks.unwrap().id, "wat");
}
