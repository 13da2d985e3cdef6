use crate::services::clock::{Timestamp, LONGEST_WAIT, SECONDS_PER_MINUTE};
use crate::services::orders::{
    delete_single_reply, get_single_reply, new_order_row, post_single_reply, BodyView,
    DbErrorView, NewOrderView, OrderView, CREATED, NOT_FOUND, NO_CONTENT, OK,
};
use crate::services::store::{wanted_by, Change, TableView, LAST_ID};
use vstd::prelude::*;

verus! {

/// A filter that every element passes keeps the whole sequence.
proof fn lemma_filter_keeps_all(rows: Seq<OrderView>, keep: spec_fn(OrderView) -> bool)
    requires
        forall|i: int| 0 <= i < rows.len() ==> keep(#[trigger] rows[i]),
    ensures
        rows.filter(keep) == rows,
    decreases rows.len(),
{
    if rows.len() == 0 {
        assert(rows.filter(keep).len() <= rows.len()) by {
            rows.lemma_filter_len(keep);
        }
        assert(rows.filter(keep) =~= rows);
    } else {
        let front = rows.drop_last();
        assert(front.push(rows.last()) =~= rows);
        lemma_filter_keeps_all(front, keep);
        front.lemma_filter_push(rows.last(), keep);
    }
}

/// Deleting the row at `at` leaves every other row in the table.
proof fn lemma_other_rows_stay(rows: Seq<OrderView>, at: int, order: OrderView)
    requires
        0 <= at < rows.len(),
        rows.contains(order),
        order != rows[at],
    ensures
        rows.remove(at).contains(order),
{
    let i = choose|i: int| 0 <= i < rows.len() && rows[i] == order;
    rows.remove_ensures(at);
    if i < at {
        assert(rows.remove(at)[i] == order);
    } else {
        assert(rows.remove(at)[i - 1] == order);
    }
}

/// Each of the operations that change the table keeps it well formed: ids
/// stay unique, and every row is one that the schema admits. The row to
/// insert carries an id that a row can have.
pub proof fn law_operations_keep_tables_well_formed(
    table: TableView,
    new: NewOrderView,
    order: OrderView,
    id: int,
)
    requires
        table.wf(),
        order.id <= LAST_ID,
    ensures
        table.create(new).0.wf(),
        table.insert(order).0.wf(),
        table.delete(id).0.wf(),
{
    if table.has_id(id) {
        table.rows.remove_ensures(table.position(id));
    }
}

/// Every created order is ready in the window: if the create request arrives
/// at `now`, whatever random number it draws, the order that is stored is
/// ready no earlier than 5 minutes and no later than 14 minutes after `now`,
/// and so strictly later than `now`. The time 14 minutes after `now` is one
/// whose seconds fit 64 bits.
pub proof fn law_created_orders_are_ready_in_the_window(
    table: TableView,
    table_number: int,
    item_name: Seq<char>,
    now: Timestamp,
    random: int,
)
    requires
        now.secs + SECONDS_PER_MINUTE * LONGEST_WAIT <= i64::MAX,
    ensures
        table.create(new_order_row(table_number, item_name, now, random)).1 matches Ok(order) ==> {
            &&& order.ready_at.in_ready_window(now)
            &&& !order.ready_at.at_or_before(now)
        },
{
}

/// A created order can be fetched at once under the id that it was given: the
/// fetch returns the very row that the create request returned, which holds
/// the table number and the item name that were asked for. In replies: 201
/// with the order, then 200 with the same order.
pub proof fn law_created_order_can_be_fetched(table: TableView, new: NewOrderView)
    requires
        table.wf(),
    ensures
        table.create(new).1 matches Ok(order) ==> {
            &&& order.table_number == new.table_number
            &&& order.item_name == new.item_name
            &&& !table.has_id(order.id)
            &&& table.create(new).0.get(order.id) == Ok::<OrderView, DbErrorView>(order)
            &&& post_single_reply(table.create(new).1).status == CREATED
            &&& post_single_reply(table.create(new).1).body == BodyView::Order(order)
            &&& get_single_reply(table.create(new).0.get(order.id)).status == OK
            &&& get_single_reply(table.create(new).0.get(order.id)).body == BodyView::Order(order)
        },
{
    if let Ok(order) = table.create(new).1 {
        let after = table.create(new).0;
        let last = after.rows.len() - 1;
        assert(after.rows[last] == order);
        assert(after.has_id(order.id));
        let at = after.position(order.id);
        assert(after.rows[at].id == order.id);
        assert(at == last);
    }
}

/// A listing without a filter shows every row of the table, so it shows each
/// order from the moment it is created.
pub proof fn law_unfiltered_listing_shows_every_row(table: TableView, new: NewOrderView)
    ensures
        table.list(None) == table.rows,
        table.create(new).1 matches Ok(order) ==> table.create(new).0.list(None).contains(order),
{
    lemma_filter_keeps_all(table.rows, wanted_by(None));
    if let Ok(order) = table.create(new).1 {
        let after = table.create(new).0;
        lemma_filter_keeps_all(after.rows, wanted_by(None));
        assert(after.rows[after.rows.len() - 1] == order);
    }
}

/// An order that a listing without a filter shows stays listed whatever is
/// created, and whatever else is deleted: only deleting its own id removes it.
pub proof fn law_listed_until_deleted(
    table: TableView,
    listed: OrderView,
    new: NewOrderView,
    id: int,
)
    requires
        table.wf(),
        table.list(None).contains(listed),
    ensures
        table.create(new).0.list(None).contains(listed),
        id != listed.id ==> table.delete(id).0.list(None).contains(listed),
        id == listed.id ==> !table.delete(id).0.list(None).contains(listed),
{
    lemma_filter_keeps_all(table.rows, wanted_by(None));
    let i = choose|i: int| 0 <= i < table.rows.len() && table.rows[i] == listed;
    assert(table.rows[i].id == listed.id);
    let created = table.create(new).0;
    lemma_filter_keeps_all(created.rows, wanted_by(None));
    assert(created.rows[i] == listed);
    let deleted = table.delete(id).0;
    lemma_filter_keeps_all(deleted.rows, wanted_by(None));
    if table.has_id(id) {
        let at = table.position(id);
        assert(table.rows[at].id == id);
        table.rows.remove_ensures(at);
        if id != listed.id {
            lemma_other_rows_stay(table.rows, at, listed);
        } else {
            assert(at == i);
            if deleted.rows.contains(listed) {
                let k = choose|k: int| 0 <= k < deleted.rows.len() && deleted.rows[k] == listed;
                if k < at {
                    assert(table.rows[k].id == table.rows[at].id);
                } else {
                    assert(table.rows[k + 1].id == table.rows[at].id);
                }
            }
        }
    }
}

/// The change inserts no row, or a row with an id that a row can have.
pub open spec fn inserts_a_row_that_fits(change: Change) -> bool {
    change matches Change::Insert(order) ==> order.id <= LAST_ID
}

/// A well-formed table stays well formed through every history of changes
/// whose inserted rows carry ids that a row can have.
pub proof fn law_histories_keep_tables_well_formed(table: TableView, changes: Seq<Change>)
    requires
        table.wf(),
        forall|k: int| 0 <= k < changes.len() ==> inserts_a_row_that_fits(#[trigger] changes[k]),
    ensures
        table.after_all(changes).wf(),
    decreases changes.len(),
{
    if changes.len() > 0 {
        let before = table.after_all(changes.drop_last());
        assert forall|k: int| 0 <= k < changes.drop_last().len() implies inserts_a_row_that_fits(
            #[trigger] changes.drop_last()[k],
        ) by {
            assert(changes.drop_last()[k] == changes[k]);
        }
        law_histories_keep_tables_well_formed(table, changes.drop_last());
        assert(inserts_a_row_that_fits(changes.last()));
        if let Change::Delete(id) = changes.last() {
            if before.has_id(id) {
                before.rows.remove_ensures(before.position(id));
            }
        }
    }
}

/// An order that a listing without a filter shows is shown after every
/// history of changes that does not delete its id.
pub proof fn law_listed_through_every_history(
    table: TableView,
    listed: OrderView,
    changes: Seq<Change>,
)
    requires
        table.list(None).contains(listed),
        forall|k: int|
            0 <= k < changes.len() ==> #[trigger] changes[k] != Change::Delete(listed.id),
    ensures
        table.after_all(changes).list(None).contains(listed),
    decreases changes.len(),
{
    if changes.len() > 0 {
        let before = table.after_all(changes.drop_last());
        let earlier = changes.drop_last();
        assert forall|k: int| 0 <= k < earlier.len() implies #[trigger] earlier[k]
            != Change::Delete(listed.id) by {
            assert(earlier[k] == changes[k]);
        }
        law_listed_through_every_history(table, listed, changes.drop_last());
        let after = before.after(changes.last());
        lemma_filter_keeps_all(before.rows, wanted_by(None));
        lemma_filter_keeps_all(after.rows, wanted_by(None));
        let i = choose|i: int| 0 <= i < before.rows.len() && before.rows[i] == listed;
        match changes.last() {
            Change::Create(new) => {
                assert(after.rows[i] == listed);
            },
            Change::Insert(order) => {
                assert(after.rows[i] == listed);
            },
            Change::Delete(id) => {
                assert(changes[changes.len() - 1] != Change::Delete(listed.id));
                if before.has_id(id) {
                    let at = before.position(id);
                    assert(before.rows[at].id == id);
                    lemma_other_rows_stay(before.rows, at, listed);
                }
            },
        }
    }
}

/// Every order that was created and not deleted since is listed: after a
/// create request that succeeds, and after every history of later changes that
/// does not delete the new order's id, a listing without a filter shows the
/// order.
pub proof fn law_created_orders_stay_listed(
    table: TableView,
    new: NewOrderView,
    later: Seq<Change>,
)
    ensures
        table.create(new).1 matches Ok(order) ==> ((forall|k: int|
            0 <= k < later.len() ==> #[trigger] later[k] != Change::Delete(order.id))
            ==> table.create(new).0.after_all(later).list(None).contains(order)),
{
    if let Ok(order) = table.create(new).1 {
        if forall|k: int| 0 <= k < later.len() ==> #[trigger] later[k] != Change::Delete(order.id) {
            law_unfiltered_listing_shows_every_row(table, new);
            law_listed_through_every_history(table.create(new).0, order, later);
        }
    }
}

/// Deleting an id that the table holds succeeds and removes it, so deleting
/// the same id again finds nothing: the first reply is 204 without a body, the
/// second is 404, and so is the reply to fetching the id afterwards.
pub proof fn law_second_delete_finds_nothing(table: TableView, id: int)
    requires
        table.wf(),
        table.has_id(id),
    ensures
        delete_single_reply(table.delete(id).1).status == NO_CONTENT,
        delete_single_reply(table.delete(id).1).body == BodyView::Empty,
        !table.delete(id).0.has_id(id),
        delete_single_reply(table.delete(id).0.delete(id).1).status == NOT_FOUND,
        get_single_reply(table.delete(id).0.get(id)).status == NOT_FOUND,
        table.delete(id).0.delete(id).0 == table.delete(id).0,
{
    let at = table.position(id);
    assert(table.rows[at].id == id);
    let after = table.delete(id).0;
    table.rows.remove_ensures(at);
    if after.has_id(id) {
        let k = choose|k: int| 0 <= k < after.rows.len() && after.rows[k].id == id;
        if k < at {
            assert(table.rows[k].id == table.rows[at].id);
        } else {
            assert(table.rows[k + 1].id == table.rows[at].id);
        }
    }
}

/// A listing with a filter shows exactly the rows of that table: each order
/// that it shows is a row with the table number asked for, and each such row
/// is shown.
pub proof fn law_filtered_listing_is_exact(table: TableView, table_number: i32, order: OrderView)
    ensures
        table.list(Some(table_number)).contains(order) <==> (table.rows.contains(order)
            && order.table_number == table_number),
{
    let keep = wanted_by(Some(table_number));
    let shown = table.list(Some(table_number));
    if shown.contains(order) {
        table.rows.lemma_filter_contains_rev(keep, order);
        let i = choose|i: int| 0 <= i < shown.len() && shown[i] == order;
        table.rows.lemma_filter_pred(keep, i);
    }
    if table.rows.contains(order) && order.table_number == table_number {
        let i = choose|i: int| 0 <= i < table.rows.len() && table.rows[i] == order;
        table.rows.lemma_filter_contains(keep, i);
    }
}

} // verus!
