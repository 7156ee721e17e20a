use vote_totals::models::NewPost;
use vote_totals::models::NewUser;
use vote_totals::models::StorageError;
use vote_totals::models::TotalVote;
use vote_totals::models::Vote;
use vote_totals::storage::Storage;
use vote_totals::storage::establish_connection;

fn open() -> Storage {
    establish_connection(Some("demo.db")).expect("a configured store opens")
}

#[test]
fn establish_connection_requires_configuration() {
    let r = establish_connection(None);
    assert_eq!(r.err(), Some(StorageError::ConnectionError));
    assert!(establish_connection(Some("demo.db")).is_ok());
}

#[test]
fn insert_then_first_user_returns_inserted_name() {
    let mut store = open();
    store.insert_user(NewUser { name: "alice" }).unwrap();
    let user = store.first_user().unwrap();
    assert_eq!(user.id, 1);
    assert_eq!(user.name, "alice");
}

#[test]
fn first_user_on_empty_table_is_not_found() {
    let store = open();
    assert_eq!(store.first_user().err(), Some(StorageError::NotFound));
}

#[test]
fn latest_post_on_empty_table_is_not_found() {
    let store = open();
    assert_eq!(store.latest_post().err(), Some(StorageError::NotFound));
}

#[test]
fn latest_post_tracks_each_insert() {
    let mut store = open();
    for i in 0..4 {
        let name = format!("post {}", i);
        store.insert_post(NewPost { name: &name }).unwrap();
        let post = store.latest_post().unwrap();
        assert_eq!(post.id, i + 1);
        assert_eq!(post.name, name);
    }
}

#[test]
fn total_is_sum_over_one_and_many_votes() {
    let mut store = open();
    store.insert_user(NewUser { name: "alice" }).unwrap();
    store.insert_user(NewUser { name: "bob" }).unwrap();
    store.insert_post(NewPost { name: "a post" }).unwrap();

    store.insert_vote(Vote { user_id: 1, post_id: 1, count: 3 }).unwrap();
    let rows = store.users_with_totals().unwrap();
    assert_eq!(rows, vec![(1, "alice".to_string(), 3)]);

    store.insert_vote(Vote { user_id: 1, post_id: 1, count: 4 }).unwrap();
    store.insert_vote(Vote { user_id: 2, post_id: 1, count: 10 }).unwrap();
    let rows = store.users_with_totals().unwrap();
    assert_eq!(
        rows,
        vec![(1, "alice".to_string(), 7), (2, "bob".to_string(), 10)]
    );
}

#[test]
fn user_without_votes_is_excluded() {
    let mut store = open();
    store.insert_user(NewUser { name: "alice" }).unwrap();
    assert_eq!(store.users_with_totals().unwrap(), vec![]);

    store.insert_user(NewUser { name: "bob" }).unwrap();
    store.insert_vote(Vote { user_id: 2, post_id: 1, count: 5 }).unwrap();
    assert_eq!(
        store.users_with_totals().unwrap(),
        vec![(2, "bob".to_string(), 5)]
    );
}

#[test]
fn duplicate_vote_rows_each_contribute() {
    let mut store = open();
    store.insert_user(NewUser { name: "alice" }).unwrap();
    store.insert_post(NewPost { name: "a post" }).unwrap();
    store.insert_vote(Vote { user_id: 1, post_id: 1, count: 6 }).unwrap();
    store.insert_vote(Vote { user_id: 1, post_id: 1, count: 6 }).unwrap();
    assert_eq!(
        store.users_with_totals().unwrap(),
        vec![(1, "alice".to_string(), 12)]
    );
}

#[test]
fn negative_counts_reduce_the_total() {
    let mut store = open();
    store.insert_user(NewUser { name: "alice" }).unwrap();
    store.insert_vote(Vote { user_id: 1, post_id: 1, count: 9 }).unwrap();
    store.insert_vote(Vote { user_id: 1, post_id: 2, count: -4 }).unwrap();
    assert_eq!(
        store.users_with_totals().unwrap(),
        vec![(1, "alice".to_string(), 5)]
    );
}

#[test]
fn users_with_totals_is_idempotent() {
    let mut store = open();
    store.insert_user(NewUser { name: "alice" }).unwrap();
    store.insert_vote(Vote { user_id: 1, post_id: 1, count: 2 }).unwrap();
    store.insert_vote(Vote { user_id: 1, post_id: 2, count: 3 }).unwrap();
    let first = store.users_with_totals().unwrap();
    let second = store.users_with_totals().unwrap();
    assert_eq!(first, second);
}

#[test]
fn seed_scenario_reports_a_single_row_of_five_hundred() {
    let mut store = open();
    store.insert_user(NewUser { name: "user 1" }).unwrap();
    let user = store.first_user().unwrap();
    for i in 0..5 {
        let name = format!("post {}", i);
        store.insert_post(NewPost { name: &name }).unwrap();
        let post = store.latest_post().unwrap();
        assert_eq!(post.id, i + 1);
        store
            .insert_vote(Vote { user_id: user.id, post_id: post.id, count: 100 })
            .unwrap();
    }
    assert_eq!(
        store.users_with_totals().unwrap(),
        vec![(1, "user 1".to_string(), 500)]
    );
}

#[test]
fn vote_pushing_a_total_past_its_column_is_a_constraint_violation() {
    let mut store = open();
    store.insert_user(NewUser { name: "alice" }).unwrap();
    store
        .insert_vote(Vote { user_id: 1, post_id: 1, count: i32::MAX })
        .unwrap();
    let before = store.users_with_totals().unwrap();
    let r = store.insert_vote(Vote { user_id: 1, post_id: 2, count: 1 });
    assert_eq!(r.err(), Some(StorageError::ConstraintViolation));
    assert_eq!(store.users_with_totals().unwrap(), before);

    let r = store.insert_vote(Vote { user_id: 1, post_id: 2, count: -1 });
    assert!(r.is_ok());
    assert_eq!(
        store.users_with_totals().unwrap(),
        vec![(1, "alice".to_string(), i32::MAX - 1)]
    );
}

#[test]
fn vote_for_an_unknown_user_joins_to_nothing() {
    let mut store = open();
    store.insert_user(NewUser { name: "alice" }).unwrap();
    store.insert_vote(Vote { user_id: 7, post_id: 1, count: 100 }).unwrap();
    assert_eq!(store.users_with_totals().unwrap(), vec![]);
}

#[test]
fn total_vote_view_row_per_user() {
    let mut store = open();
    store.insert_vote(Vote { user_id: 3, post_id: 1, count: 20 }).unwrap();
    store.insert_vote(Vote { user_id: 3, post_id: 2, count: 22 }).unwrap();
    assert_eq!(
        store.total_vote(3),
        Some(TotalVote { user_id: 3, total: 42 })
    );
    assert_eq!(store.total_vote(4), None);
}
