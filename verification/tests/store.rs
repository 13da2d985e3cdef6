use restaurant_orders::services::clock::Timestamp;
use restaurant_orders::services::orders::{
    get_single, post_single, DbError, DbErrorKind, NewOrder, Order,
};
use restaurant_orders::services::store::OrderTable;

const NOON: Timestamp = Timestamp { secs: 1_720_612_800, nanos: 0 };

fn row(table_number: i32, item_name: &str) -> NewOrder {
    NewOrder { table_number, item_name: item_name.to_string(), ready_at: NOON }
}

fn order(id: i32, table_number: i32, item_name: &str) -> Order {
    Order { id, table_number, item_name: item_name.to_string(), ready_at: NOON }
}

fn check_violation() -> DbError {
    DbError::Database {
        kind: DbErrorKind::CheckViolation,
        message: "new row violates the check constraint on table_number".to_string(),
    }
}

#[test]
fn fresh_table_lists_nothing() {
    let table = OrderTable::new(0, 2);
    assert_eq!(table.list_orders(None), Vec::<Order>::new());
    assert_eq!(table.list_orders(Some(1)), Vec::<Order>::new());
    assert_eq!(table.get_order(1), Err(DbError::RowNotFound));
}

#[test]
fn ids_are_handed_out_in_turn_and_never_again() {
    let mut table = OrderTable::new(0, 2);
    assert_eq!(table.create_order(row(0, "a")), Ok(order(1, 0, "a")));
    assert_eq!(table.create_order(row(1, "b")), Ok(order(2, 1, "b")));
    assert_eq!(table.delete_order(2), Ok(()));
    assert_eq!(table.create_order(row(2, "c")), Ok(order(3, 2, "c")));
    assert_eq!(table.list_orders(None), vec![order(1, 0, "a"), order(3, 2, "c")]);
}

#[test]
fn filter_shows_exactly_the_orders_of_the_table() {
    let mut table = OrderTable::new(0, 2);
    let rows = [(0, "soup"), (1, "fries"), (2, "tea"), (1, "pie"), (0, "cake")];
    for (table_number, item_name) in rows {
        table.create_order(row(table_number, item_name)).unwrap();
    }
    assert_eq!(table.list_orders(Some(1)), vec![order(2, 1, "fries"), order(4, 1, "pie")]);
    assert_eq!(table.list_orders(Some(0)), vec![order(1, 0, "soup"), order(5, 0, "cake")]);
    assert_eq!(table.list_orders(Some(2)), vec![order(3, 2, "tea")]);
    assert_eq!(table.list_orders(Some(3)), Vec::<Order>::new());
    assert_eq!(table.list_orders(None).len(), 5);
}

#[test]
fn listing_keeps_every_order_until_it_is_deleted() {
    let mut table = OrderTable::new(0, 2);
    let first = table.create_order(row(0, "soup")).unwrap();
    let second = table.create_order(row(1, "fries")).unwrap();
    assert!(table.list_orders(None).contains(&first));
    table.create_order(row(2, "tea")).unwrap();
    assert!(table.list_orders(None).contains(&first));
    table.delete_order(second.id).unwrap();
    assert!(table.list_orders(None).contains(&first));
    assert!(!table.list_orders(None).contains(&second));
    table.delete_order(first.id).unwrap();
    assert!(!table.list_orders(None).contains(&first));
}

#[test]
fn table_numbers_at_the_bounds_are_admitted_and_past_them_refused() {
    let mut table = OrderTable::new(-3, 7);
    assert_eq!(table.create_order(row(-3, "low")), Ok(order(1, -3, "low")));
    assert_eq!(table.create_order(row(7, "high")), Ok(order(2, 7, "high")));
    assert_eq!(table.create_order(row(-4, "below")), Err(check_violation()));
    assert_eq!(table.create_order(row(8, "above")), Err(check_violation()));
    assert_eq!(table.insert_row(order(50, 8, "above")), Err(check_violation()));
    assert_eq!(table.create_order(row(0, "next")), Ok(order(3, 0, "next")));
    assert_eq!(table.list_orders(None).len(), 3);
}

#[test]
fn table_with_an_empty_range_refuses_every_row() {
    let mut table = OrderTable::new(5, 4);
    assert_eq!(table.create_order(row(4, "a")), Err(check_violation()));
    assert_eq!(table.create_order(row(5, "b")), Err(check_violation()));
}

#[test]
fn inserting_a_used_id_is_a_unique_violation() {
    let mut table = OrderTable::new(0, 2);
    assert_eq!(table.insert_row(order(100, 0, "first")), Ok(()));
    let refused = table.insert_row(order(100, 1, "second"));
    assert_eq!(
        refused,
        Err(DbError::Database {
            kind: DbErrorKind::UniqueViolation,
            message: "duplicate key value violates the unique constraint on id".to_string(),
        })
    );
    assert_eq!(table.list_orders(None), vec![order(100, 0, "first")]);
    assert_eq!(post_single(refused.map(|_| order(0, 0, ""))).status, 422);
}

#[test]
fn inserted_ids_are_skipped_by_later_creates() {
    let mut table = OrderTable::new(0, 2);
    assert_eq!(table.insert_row(order(-5, 0, "negative")), Ok(()));
    assert_eq!(table.create_order(row(0, "a")), Ok(order(1, 0, "a")));
    assert_eq!(table.insert_row(order(40, 0, "far")), Ok(()));
    assert_eq!(table.insert_row(order(7, 0, "near")), Ok(()));
    assert_eq!(table.create_order(row(0, "b")), Ok(order(41, 0, "b")));
    assert_eq!(table.get_order(-5), Ok(order(-5, 0, "negative")));
    assert_eq!(table.get_order(7), Ok(order(7, 0, "near")));
}

#[test]
fn create_fails_once_the_last_id_is_taken() {
    let mut table = OrderTable::new(0, 2);
    assert_eq!(table.insert_row(order(i32::MAX - 1, 0, "late")), Ok(()));
    assert_eq!(table.create_order(row(1, "last")), Ok(order(i32::MAX, 1, "last")));
    let refused = table.create_order(row(1, "none left"));
    assert_eq!(
        refused,
        Err(DbError::Database {
            kind: DbErrorKind::Other,
            message: "reached the maximum value of the id sequence".to_string(),
        })
    );
    let reply = post_single(refused);
    assert_eq!(reply.status, 500);
    assert_eq!(table.list_orders(None).len(), 2);
    assert_eq!(get_single(table.get_order(i32::MAX)).status, 200);
}

#[test]
fn duplicate_is_equal_to_the_order() {
    let first = order(7, 2, "tea");
    let second = first.duplicate();
    assert_eq!(first, second);
    assert_eq!(second.item_name, "tea");
    assert_eq!((second.id, second.table_number, second.ready_at), (7, 2, NOON));
}

#[test]
fn deleting_removes_only_the_row_with_the_id() {
    let mut table = OrderTable::new(0, 2);
    for item_name in ["a", "b", "c"] {
        table.create_order(row(1, item_name)).unwrap();
    }
    assert_eq!(table.delete_order(2), Ok(()));
    assert_eq!(table.list_orders(None), vec![order(1, 1, "a"), order(3, 1, "c")]);
    assert_eq!(table.delete_order(2), Err(DbError::RowNotFound));
    assert_eq!(table.delete_order(4), Err(DbError::RowNotFound));
    assert_eq!(table.list_orders(Some(1)), vec![order(1, 1, "a"), order(3, 1, "c")]);
}
