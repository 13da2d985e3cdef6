use crate::services::orders::{
    order_outcome_view, order_views, unit_outcome_view, DbError, DbErrorKind, DbErrorView,
    NewOrder, NewOrderView, Order, OrderView,
};
use vstd::prelude::*;
use vstd::string::StringExecFns;

verus! {

/// The id that the first order of a fresh table gets.
pub const FIRST_ID: i64 = 1;

/// The largest id that a row can have.
pub const LAST_ID: i64 = 2_147_483_647;

/// The error of a row whose table number the schema does not admit.
pub open spec fn check_violation() -> DbErrorView {
    DbErrorView::Database {
        kind: DbErrorKind::CheckViolation,
        message: "new row violates the check constraint on table_number"@,
    }
}

/// The error of a row whose id another row already has.
pub open spec fn unique_violation() -> DbErrorView {
    DbErrorView::Database {
        kind: DbErrorKind::UniqueViolation,
        message: "duplicate key value violates the unique constraint on id"@,
    }
}

/// The error of a create request that finds every id handed out.
pub open spec fn ids_exhausted() -> DbErrorView {
    DbErrorView::Database {
        kind: DbErrorKind::Other,
        message: "reached the maximum value of the id sequence"@,
    }
}

fn check_violation_error() -> (error: DbError)
    ensures
        error@ == check_violation(),
{
    DbError::Database {
        kind: DbErrorKind::CheckViolation,
        message: String::from_str("new row violates the check constraint on table_number"),
    }
}

fn unique_violation_error() -> (error: DbError)
    ensures
        error@ == unique_violation(),
{
    DbError::Database {
        kind: DbErrorKind::UniqueViolation,
        message: String::from_str("duplicate key value violates the unique constraint on id"),
    }
}

fn ids_exhausted_error() -> (error: DbError)
    ensures
        error@ == ids_exhausted(),
{
    DbError::Database {
        kind: DbErrorKind::Other,
        message: String::from_str("reached the maximum value of the id sequence"),
    }
}

/// Whether a listing with the given filter shows the given order: without a
/// filter every order, with one the orders of that table.
pub open spec fn wanted(filter: Option<i32>, order: OrderView) -> bool {
    match filter {
        Some(table_number) => order.table_number == table_number,
        None => true,
    }
}

/// [`wanted`] for one filter, as a predicate on orders.
pub open spec fn wanted_by(filter: Option<i32>) -> spec_fn(OrderView) -> bool {
    |order: OrderView| wanted(filter, order)
}

/// One operation that changes the table.
pub enum Change {
    /// A create request for the given row.
    Create(NewOrderView),
    /// Storing the given row under the id that it carries.
    Insert(OrderView),
    /// Deleting the row with the given id.
    Delete(int),
}

/// The orders table as a mathematical value: its rows in the order in which
/// they were stored, the id that the next created order gets, and the range of
/// table numbers that its schema admits.
pub struct TableView {
    pub rows: Seq<OrderView>,
    pub next_id: int,
    pub lowest_table: int,
    pub highest_table: int,
}

impl TableView {
    /// The table without rows that admits the table numbers from
    /// `lowest_table` up to `highest_table`.
    pub open spec fn empty(lowest_table: int, highest_table: int) -> TableView {
        TableView { rows: Seq::empty(), next_id: FIRST_ID as int, lowest_table, highest_table }
    }

    /// The schema admits this table number.
    pub open spec fn admits(self, table_number: int) -> bool {
        self.lowest_table <= table_number <= self.highest_table
    }

    /// Some row has this id.
    pub open spec fn has_id(self, id: int) -> bool {
        exists|i: int| 0 <= i < self.rows.len() && #[trigger] self.rows[i].id == id
    }

    /// Where the row with this id stands, if there is one.
    pub open spec fn position(self, id: int) -> int {
        choose|i: int| 0 <= i < self.rows.len() && #[trigger] self.rows[i].id == id
    }

    /// No two rows share an id, every id was handed out before the next one,
    /// and every row is one that the schema admits.
    pub open spec fn wf(self) -> bool {
        &&& FIRST_ID <= self.next_id <= LAST_ID + 1
        &&& forall|i: int, j: int|
            0 <= i < j < self.rows.len() ==> #[trigger] self.rows[i].id
                != #[trigger] self.rows[j].id
        &&& forall|i: int|
            0 <= i < self.rows.len() ==> {
                &&& (#[trigger] self.rows[i]).id < self.next_id
                &&& self.admits(self.rows[i].table_number)
            }
    }

    /// The rows that a listing with the given filter shows, in the table's order.
    pub open spec fn list(self, filter: Option<i32>) -> Seq<OrderView> {
        self.rows.filter(wanted_by(filter))
    }

    /// The outcome of fetching the row with the given id.
    pub open spec fn get(self, id: int) -> Result<OrderView, DbErrorView> {
        if self.has_id(id) {
            Ok(self.rows[self.position(id)])
        } else {
            Err(DbErrorView::RowNotFound)
        }
    }

    /// The table after a create request, and the request's outcome: the new
    /// row under the next id, unless the schema does not admit its table
    /// number or no id is left, which both leave the table as it was.
    pub open spec fn create(self, new: NewOrderView) -> (
        TableView,
        Result<OrderView, DbErrorView>,
    ) {
        if !self.admits(new.table_number) {
            (self, Err(check_violation()))
        } else if self.next_id > LAST_ID {
            (self, Err(ids_exhausted()))
        } else {
            let order = new.with_id(self.next_id);
            (
                TableView { rows: self.rows.push(order), next_id: self.next_id + 1, ..self },
                Ok(order),
            )
        }
    }

    /// The table after storing a row under the id that it carries, and the
    /// outcome: the row is refused, and the table left as it was, where the
    /// schema does not admit its table number or another row has its id.
    pub open spec fn insert(self, order: OrderView) -> (TableView, Result<(), DbErrorView>) {
        if !self.admits(order.table_number) {
            (self, Err(check_violation()))
        } else if self.has_id(order.id) {
            (self, Err(unique_violation()))
        } else {
            let next_id = if order.id < self.next_id {
                self.next_id
            } else {
                order.id + 1
            };
            (TableView { rows: self.rows.push(order), next_id, ..self }, Ok(()))
        }
    }

    /// The table after deleting the row with the given id, and the outcome:
    /// without such a row the table stays as it was.
    pub open spec fn delete(self, id: int) -> (TableView, Result<(), DbErrorView>) {
        if self.has_id(id) {
            (TableView { rows: self.rows.remove(self.position(id)), ..self }, Ok(()))
        } else {
            (self, Err(DbErrorView::RowNotFound))
        }
    }

    /// The table after one change.
    pub open spec fn after(self, change: Change) -> TableView {
        match change {
            Change::Create(new) => self.create(new).0,
            Change::Insert(order) => self.insert(order).0,
            Change::Delete(id) => self.delete(id).0,
        }
    }

    /// The table after a history of changes, the first of them first.
    pub open spec fn after_all(self, changes: Seq<Change>) -> TableView
        decreases changes.len(),
    {
        if changes.len() == 0 {
            self
        } else {
            self.after_all(changes.drop_last()).after(changes.last())
        }
    }
}

/// The orders table, held in memory: it answers the four operations as the
/// relational table does.
pub struct OrderTable {
    rows: Vec<Order>,
    next_id: i64,
    lowest_table: i32,
    highest_table: i32,
}

impl View for OrderTable {
    type V = TableView;

    closed spec fn view(&self) -> TableView {
        TableView {
            rows: order_views(self.rows@),
            next_id: self.next_id as int,
            lowest_table: self.lowest_table as int,
            highest_table: self.highest_table as int,
        }
    }
}

impl OrderTable {
    #[verifier::type_invariant]
    spec fn well_formed(self) -> bool {
        self@.wf()
    }

    /// Makes the table without rows that admits the table numbers from
    /// `lowest_table` up to `highest_table`.
    pub fn new(lowest_table: i32, highest_table: i32) -> (table: OrderTable)
        ensures
            table@ == TableView::empty(lowest_table as int, highest_table as int),
            table@.wf(),
    {
        let table = OrderTable { rows: Vec::new(), next_id: FIRST_ID, lowest_table, highest_table };
        assert(table@.rows =~= Seq::empty());
        table
    }

    /// This table, holding the given rows in place of its own.
    spec fn holding(self, rows: Seq<Order>) -> TableView {
        TableView { rows: order_views(rows), ..self@ }
    }

    /// Takes the rows out of the table, which is left without rows: the rows
    /// change outside the table, so that the table is well formed at every step.
    fn take_rows(&mut self) -> (rows: Vec<Order>)
        ensures
            rows == old(self).rows,
            final(self).rows@.len() == 0,
            final(self).next_id == old(self).next_id,
            final(self).lowest_table == old(self).lowest_table,
            final(self).highest_table == old(self).highest_table,
    {
        proof {
            use_type_invariant(&*self);
        }
        let mut rows: Vec<Order> = Vec::new();
        std::mem::swap(&mut self.rows, &mut rows);
        rows
    }

    /// Puts rows into the table in place of those that it holds.
    fn put_rows(&mut self, rows: Vec<Order>)
        requires
            old(self).holding(rows@).wf(),
        ensures
            final(self).rows == rows,
            final(self).next_id == old(self).next_id,
            final(self).lowest_table == old(self).lowest_table,
            final(self).highest_table == old(self).highest_table,
    {
        let mut rows = rows;
        std::mem::swap(&mut self.rows, &mut rows);
    }

    fn position_of(&self, id: i32) -> (at: Option<usize>)
        ensures
            match at {
                Some(i) => self@.has_id(id as int) && self@.position(id as int) == i
                    && i < self.rows.len(),
                None => !self@.has_id(id as int),
            },
    {
        proof {
            use_type_invariant(self);
        }
        let mut i: usize = 0;
        while i < self.rows.len()
            invariant
                i <= self.rows.len(),
                self@.wf(),
                forall|j: int| 0 <= j < i ==> (#[trigger] self@.rows[j]).id != id,
            decreases self.rows.len() - i,
        {
            if self.rows[i].id == id {
                proof {
                    assert(self@.rows[i as int].id == id);
                    let at = self@.position(id as int);
                    assert(self@.rows[at].id == id);
                }
                return Some(i);
            }
            i += 1;
        }
        None
    }

    /// Lists the orders of one table, or of every table where no filter is
    /// given, in the order in which they were stored.
    pub fn list_orders(&self, table_number: Option<i32>) -> (orders: Vec<Order>)
        ensures
            order_views(orders@) == self@.list(table_number),
    {
        let ghost rows = self@.rows;
        let ghost shown = wanted_by(table_number);
        let mut orders: Vec<Order> = Vec::new();
        let mut i: usize = 0;
        assert(rows.take(0) =~= Seq::empty());
        assert(order_views(orders@) =~= Seq::empty());
        while i < self.rows.len()
            invariant
                i <= self.rows.len(),
                rows == self@.rows,
                shown == wanted_by(table_number),
                order_views(orders@) == rows.take(i as int).filter(shown),
            decreases self.rows.len() - i,
        {
            let order = &self.rows[i];
            let keep = match table_number {
                Some(wanted_table) => order.table_number == wanted_table,
                None => true,
            };
            proof {
                assert(rows.take(i + 1) =~= rows.take(i as int).push(rows[i as int]));
                rows.take(i as int).lemma_filter_push(rows[i as int], shown);
                assert(keep == shown(rows[i as int]));
            }
            if keep {
                let ghost before = orders@;
                orders.push(order.duplicate());
                assert(order_views(orders@) =~= order_views(before).push(rows[i as int]));
            }
            i += 1;
        }
        assert(rows.take(i as int) =~= rows);
        orders
    }

    /// Fetches the order with the given id; without such a row the outcome is
    /// `RowNotFound`.
    pub fn get_order(&self, id: i32) -> (found: Result<Order, DbError>)
        ensures
            order_outcome_view(found) == self@.get(id as int),
    {
        match self.position_of(id) {
            Some(i) => Ok(self.rows[i].duplicate()),
            None => Err(DbError::RowNotFound),
        }
    }

    /// Stores a new row under the next id and returns it as stored. A table
    /// number that the schema does not admit is a check violation; it leaves
    /// the table as it was, and so does a request that finds no id left.
    pub fn create_order(&mut self, new: NewOrder) -> (created: Result<Order, DbError>)
        ensures
            final(self)@ == old(self)@.create(new@).0,
            final(self)@.wf(),
            order_outcome_view(created) == old(self)@.create(new@).1,
    {
        proof {
            use_type_invariant(&*self);
        }
        if new.table_number < self.lowest_table || new.table_number > self.highest_table {
            return Err(check_violation_error());
        }
        if self.next_id > LAST_ID {
            return Err(ids_exhausted_error());
        }
        let order = Order {
            id: self.next_id as i32,
            table_number: new.table_number,
            item_name: new.item_name,
            ready_at: new.ready_at,
        };
        let mut rows: Vec<Order> = self.take_rows();
        rows.push(order.duplicate());
        assert(order_views(rows@) =~= old(self)@.rows.push(order@));
        self.next_id = self.next_id + 1;
        self.put_rows(rows);
        Ok(order)
    }

    /// Stores a row under the id that it carries, as a fixture does. A table
    /// number that the schema does not admit is a check violation, an id that
    /// another row has is a unique violation; both leave the table as it was.
    pub fn insert_row(&mut self, order: Order) -> (inserted: Result<(), DbError>)
        ensures
            final(self)@ == old(self)@.insert(order@).0,
            final(self)@.wf(),
            unit_outcome_view(inserted) == old(self)@.insert(order@).1,
    {
        proof {
            use_type_invariant(&*self);
        }
        if order.table_number < self.lowest_table || order.table_number > self.highest_table {
            return Err(check_violation_error());
        }
        if self.position_of(order.id).is_some() {
            return Err(unique_violation_error());
        }
        let ghost row = order@;
        if order.id as i64 >= self.next_id {
            self.next_id = order.id as i64 + 1;
        }
        let mut rows: Vec<Order> = self.take_rows();
        rows.push(order);
        assert(order_views(rows@) =~= old(self)@.rows.push(row));
        self.put_rows(rows);
        Ok(())
    }

    /// Deletes the order with the given id; without such a row the outcome is
    /// `RowNotFound` and the table stays as it was.
    pub fn delete_order(&mut self, id: i32) -> (deleted: Result<(), DbError>)
        ensures
            final(self)@ == old(self)@.delete(id as int).0,
            final(self)@.wf(),
            unit_outcome_view(deleted) == old(self)@.delete(id as int).1,
    {
        proof {
            use_type_invariant(&*self);
        }
        match self.position_of(id) {
            Some(i) => {
                let mut rows: Vec<Order> = self.take_rows();
                rows.remove(i);
                assert(order_views(rows@) =~= old(self)@.rows.remove(i as int));
                proof {
                    old(self)@.rows.remove_ensures(i as int);
                }
                self.put_rows(rows);
                Ok(())
            },
            None => Err(DbError::RowNotFound),
        }
    }
}

} // verus!
