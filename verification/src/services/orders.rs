use crate::services::clock::{
    current_time, ready_at, wait_minutes, Timestamp, LONGEST_WAIT, SECONDS_PER_MINUTE,
};
use vstd::prelude::*;
use vstd::string::StringExecFns;

verus! {

pub const OK: u16 = 200;

pub const CREATED: u16 = 201;

pub const NO_CONTENT: u16 = 204;

pub const NOT_FOUND: u16 = 404;

pub const UNPROCESSABLE_ENTITY: u16 = 422;

pub const INTERNAL_SERVER_ERROR: u16 = 500;

/// The HTTP methods that the order routes answer.
#[derive(Clone, Copy, Debug, PartialEq, Eq, Structural)]
pub enum Method {
    Get,
    Post,
    Delete,
}

/// The four routes of the order API.
#[derive(Clone, Copy, Debug, PartialEq, Eq, Structural)]
pub enum Endpoint {
    /// Lists the orders, all of them or those of one table.
    GetMultiple,
    /// Fetches one order by its id.
    GetSingle,
    /// Places an order.
    PostSingle,
    /// Deletes one order by its id.
    DeleteSingle,
}

impl Endpoint {
    /// The method that the route answers.
    pub open spec fn method_of(self) -> Method {
        match self {
            Endpoint::GetMultiple => Method::Get,
            Endpoint::GetSingle => Method::Get,
            Endpoint::PostSingle => Method::Post,
            Endpoint::DeleteSingle => Method::Delete,
        }
    }

    /// The route's path below the orders path: the collection itself, or one
    /// order under its id.
    pub open spec fn path_of(self) -> Seq<char> {
        match self {
            Endpoint::GetMultiple => "/"@,
            Endpoint::GetSingle => "/{id}"@,
            Endpoint::PostSingle => "/"@,
            Endpoint::DeleteSingle => "/{id}"@,
        }
    }

    /// The status that the route answers with when the store succeeds.
    pub open spec fn success_status(self) -> u16 {
        match self {
            Endpoint::GetMultiple => OK,
            Endpoint::GetSingle => OK,
            Endpoint::PostSingle => CREATED,
            Endpoint::DeleteSingle => NO_CONTENT,
        }
    }

    /// Returns the method that the route answers.
    pub fn method(&self) -> (method: Method)
        ensures
            method == self.method_of(),
    {
        match self {
            Endpoint::GetMultiple => Method::Get,
            Endpoint::GetSingle => Method::Get,
            Endpoint::PostSingle => Method::Post,
            Endpoint::DeleteSingle => Method::Delete,
        }
    }

    /// Returns the route's path below the orders path.
    pub fn path(&self) -> (path: String)
        ensures
            path@ == self.path_of(),
    {
        match self {
            Endpoint::GetMultiple => String::from_str("/"),
            Endpoint::GetSingle => String::from_str("/{id}"),
            Endpoint::PostSingle => String::from_str("/"),
            Endpoint::DeleteSingle => String::from_str("/{id}"),
        }
    }
}

/// The order API: the routes that it serves below the orders path.
#[derive(Clone, Copy, Debug, PartialEq, Eq, Structural)]
pub struct OrderApi;

impl OrderApi {
    /// The routes of the API, in the order in which they are announced.
    pub open spec fn routes() -> Seq<Endpoint> {
        seq![
            Endpoint::GetMultiple,
            Endpoint::GetSingle,
            Endpoint::PostSingle,
            Endpoint::DeleteSingle,
        ]
    }

    /// Returns the routes of the API.
    pub fn endpoints() -> (endpoints: Vec<Endpoint>)
        ensures
            endpoints@ == OrderApi::routes(),
    {
        let mut endpoints: Vec<Endpoint> = Vec::new();
        endpoints.push(Endpoint::GetMultiple);
        endpoints.push(Endpoint::GetSingle);
        endpoints.push(Endpoint::PostSingle);
        endpoints.push(Endpoint::DeleteSingle);
        assert(endpoints@ =~= OrderApi::routes());
        endpoints
    }
}

/// One placed item for one table: a row of the orders table.
#[derive(Clone, Debug, PartialEq, Eq)]
pub struct Order {
    pub id: i32,
    pub table_number: i32,
    pub item_name: String,
    pub ready_at: Timestamp,
}

/// What an [`Order`] holds, as mathematical values.
pub struct OrderView {
    pub id: int,
    pub table_number: int,
    pub item_name: Seq<char>,
    pub ready_at: Timestamp,
}

impl View for Order {
    type V = OrderView;

    open spec fn view(&self) -> OrderView {
        OrderView {
            id: self.id as int,
            table_number: self.table_number as int,
            item_name: self.item_name@,
            ready_at: self.ready_at,
        }
    }
}

impl Order {
    /// A second copy of this order.
    pub fn duplicate(&self) -> (copy: Order)
        ensures
            copy@ == self@,
    {
        Order {
            id: self.id,
            table_number: self.table_number,
            item_name: self.item_name.clone(),
            ready_at: self.ready_at,
        }
    }
}

/// The views of a sequence of orders, in the same order.
pub open spec fn order_views(orders: Seq<Order>) -> Seq<OrderView> {
    Seq::new(orders.len(), |i: int| orders[i]@)
}

/// What a client sends to place an order.
#[derive(Clone, Debug, PartialEq, Eq)]
pub struct OrderCreateRequest {
    pub table_number: i32,
    pub item_name: String,
}

/// The row that a create request asks the table to store: an order that has
/// no id yet.
#[derive(Clone, Debug, PartialEq, Eq)]
pub struct NewOrder {
    pub table_number: i32,
    pub item_name: String,
    pub ready_at: Timestamp,
}

/// What a [`NewOrder`] holds, as mathematical values.
pub struct NewOrderView {
    pub table_number: int,
    pub item_name: Seq<char>,
    pub ready_at: Timestamp,
}

impl View for NewOrder {
    type V = NewOrderView;

    open spec fn view(&self) -> NewOrderView {
        NewOrderView {
            table_number: self.table_number as int,
            item_name: self.item_name@,
            ready_at: self.ready_at,
        }
    }
}

impl NewOrderView {
    /// The order that this row becomes under the given id.
    pub open spec fn with_id(self, id: int) -> OrderView {
        OrderView {
            id,
            table_number: self.table_number,
            item_name: self.item_name,
            ready_at: self.ready_at,
        }
    }
}

/// The body of every reply that reports a failure.
#[derive(Clone, Debug, PartialEq, Eq)]
pub struct ErrorResponse {
    pub details: String,
}

/// How the database driver names what a statement broke.
#[derive(Clone, Copy, Debug, PartialEq, Eq, Structural)]
pub enum DbErrorKind {
    /// A unique or primary key constraint.
    UniqueViolation,
    /// A foreign key constraint.
    ForeignKeyViolation,
    /// A not-null constraint.
    NotNullViolation,
    /// A check constraint.
    CheckViolation,
    /// A kind that the driver names and this list does not.
    Unlisted,
    /// The driver names no kind for the error.
    Other,
}

/// A failure of a statement, as the database driver reports it.
#[derive(Clone, Debug, PartialEq, Eq)]
pub enum DbError {
    /// No row matched a statement that was to return one.
    RowNotFound,
    /// The database itself refused the statement.
    Database { kind: DbErrorKind, message: String },
    /// Any other failure, such as a lost connection.
    Other,
}

/// What a [`DbError`] holds, as mathematical values.
pub enum DbErrorView {
    RowNotFound,
    Database { kind: DbErrorKind, message: Seq<char> },
    Other,
}

impl View for DbError {
    type V = DbErrorView;

    open spec fn view(&self) -> DbErrorView {
        match *self {
            DbError::RowNotFound => DbErrorView::RowNotFound,
            DbError::Database { kind, message } => DbErrorView::Database {
                kind,
                message: message@,
            },
            DbError::Other => DbErrorView::Other,
        }
    }
}

/// The three kinds of failure that a reply tells apart.
#[derive(Clone, Copy, Debug, PartialEq, Eq, Structural)]
pub enum Failure {
    /// No row has the id that was asked for.
    NotFound,
    /// The statement broke a constraint of the schema.
    ConstraintViolation,
    /// Anything else.
    Unclassified,
}

impl DbErrorView {
    /// The kind of failure this error stands for.
    pub open spec fn failure(self) -> Failure {
        match self {
            DbErrorView::RowNotFound => Failure::NotFound,
            DbErrorView::Database { kind, .. } => if kind == DbErrorKind::Other {
                Failure::Unclassified
            } else {
                Failure::ConstraintViolation
            },
            DbErrorView::Other => Failure::Unclassified,
        }
    }
}

impl DbError {
    /// Tells which of the three kinds of failure this error is.
    pub fn failure(&self) -> (failure: Failure)
        ensures
            failure == self@.failure(),
    {
        match self {
            DbError::RowNotFound => Failure::NotFound,
            DbError::Database { kind, .. } => match kind {
                DbErrorKind::Other => Failure::Unclassified,
                _ => Failure::ConstraintViolation,
            },
            DbError::Other => Failure::Unclassified,
        }
    }
}

/// What a reply carries.
#[derive(Clone, Debug, PartialEq, Eq)]
pub enum Body {
    Empty,
    Order(Order),
    Orders(Vec<Order>),
    Error(ErrorResponse),
}

/// What a [`Body`] holds, as mathematical values.
pub enum BodyView {
    Empty,
    Order(OrderView),
    Orders(Seq<OrderView>),
    Error(Seq<char>),
}

impl View for Body {
    type V = BodyView;

    open spec fn view(&self) -> BodyView {
        match *self {
            Body::Empty => BodyView::Empty,
            Body::Order(order) => BodyView::Order(order@),
            Body::Orders(orders) => BodyView::Orders(order_views(orders@)),
            Body::Error(error) => BodyView::Error(error.details@),
        }
    }
}

/// The answer to one request: a status code and a body.
#[derive(Clone, Debug, PartialEq, Eq)]
pub struct HttpReply {
    pub status: u16,
    pub body: Body,
}

/// What an [`HttpReply`] holds, as mathematical values.
pub struct ReplyView {
    pub status: u16,
    pub body: BodyView,
}

impl View for HttpReply {
    type V = ReplyView;

    open spec fn view(&self) -> ReplyView {
        ReplyView { status: self.status, body: self.body@ }
    }
}

/// The status code that reports a failure of the given kind.
pub open spec fn failure_status(failure: Failure) -> u16 {
    match failure {
        Failure::NotFound => NOT_FOUND,
        Failure::ConstraintViolation => UNPROCESSABLE_ENTITY,
        Failure::Unclassified => INTERNAL_SERVER_ERROR,
    }
}

/// The text that reports an error: a fixed sentence for a missing row and for
/// an unclassified failure, the database's own message for a broken constraint.
pub open spec fn failure_details(error: DbErrorView) -> Seq<char> {
    match error {
        DbErrorView::RowNotFound => "Record Not found"@,
        DbErrorView::Database { kind, message } => if kind == DbErrorKind::Other {
            "Internal Server Error"@
        } else {
            message
        },
        DbErrorView::Other => "Internal Server Error"@,
    }
}

/// The reply that reports an error.
pub open spec fn error_reply(error: DbErrorView) -> ReplyView {
    ReplyView {
        status: failure_status(error.failure()),
        body: BodyView::Error(failure_details(error)),
    }
}

/// The reply to a request that lists orders.
pub open spec fn get_multiple_reply(found: Result<Seq<OrderView>, DbErrorView>) -> ReplyView {
    match found {
        Ok(orders) => ReplyView {
            status: Endpoint::GetMultiple.success_status(),
            body: BodyView::Orders(orders),
        },
        Err(error) => error_reply(error),
    }
}

/// The reply to a request for one order.
pub open spec fn get_single_reply(found: Result<OrderView, DbErrorView>) -> ReplyView {
    match found {
        Ok(order) => ReplyView {
            status: Endpoint::GetSingle.success_status(),
            body: BodyView::Order(order),
        },
        Err(error) => error_reply(error),
    }
}

/// The reply to a request that places an order.
pub open spec fn post_single_reply(created: Result<OrderView, DbErrorView>) -> ReplyView {
    match created {
        Ok(order) => ReplyView {
            status: Endpoint::PostSingle.success_status(),
            body: BodyView::Order(order),
        },
        Err(error) => error_reply(error),
    }
}

/// The reply to a request that deletes an order.
pub open spec fn delete_single_reply(deleted: Result<(), DbErrorView>) -> ReplyView {
    match deleted {
        Ok(_) => ReplyView {
            status: Endpoint::DeleteSingle.success_status(),
            body: BodyView::Empty,
        },
        Err(error) => error_reply(error),
    }
}

/// The outcome of a listing, as mathematical values.
pub open spec fn listing_view(found: Result<Vec<Order>, DbError>) -> Result<
    Seq<OrderView>,
    DbErrorView,
> {
    match found {
        Ok(orders) => Ok(order_views(orders@)),
        Err(error) => Err(error@),
    }
}

/// The outcome of a statement that returns one order, as mathematical values.
pub open spec fn order_outcome_view(outcome: Result<Order, DbError>) -> Result<
    OrderView,
    DbErrorView,
> {
    match outcome {
        Ok(order) => Ok(order@),
        Err(error) => Err(error@),
    }
}

/// The outcome of a statement that returns nothing, as mathematical values.
pub open spec fn unit_outcome_view(outcome: Result<(), DbError>) -> Result<(), DbErrorView> {
    match outcome {
        Ok(_) => Ok(()),
        Err(error) => Err(error@),
    }
}

/// The row that a create request asks for when it arrives at `now` and draws
/// `random`: the table number and item name of the request, ready after the
/// minutes drawn.
pub open spec fn new_order_row(
    table_number: int,
    item_name: Seq<char>,
    now: Timestamp,
    random: int,
) -> NewOrderView {
    NewOrderView { table_number, item_name, ready_at: now.plus_minutes(wait_minutes(random)) }
}

/// Makes the row to store for a create request that arrives at `now` and
/// draws `random`.
pub fn new_order(request: OrderCreateRequest, now: Timestamp, random: i64) -> (row: NewOrder)
    requires
        now.secs + SECONDS_PER_MINUTE * LONGEST_WAIT <= i64::MAX,
    ensures
        row@ == new_order_row(
            request.table_number as int,
            request.item_name@,
            now,
            random as int,
        ),
        row.ready_at.in_ready_window(now),
{
    NewOrder {
        table_number: request.table_number,
        item_name: request.item_name,
        ready_at: ready_at(now, random),
    }
}

/// Makes the row to store for a create request that arrives now: reads the
/// clock, draws a random number and computes the row from both. Whatever the
/// clock shows and whatever is drawn, the row holds the table number and the
/// item name of the request and is ready 5 to 14 whole minutes after a time
/// that the clock can show.
pub fn prepare_order(request: OrderCreateRequest) -> (row: NewOrder)
    ensures
        row.table_number == request.table_number,
        row.item_name@ == request.item_name@,
        exists|now: Timestamp, random: int|
            now.on_calendar() && row@ == #[trigger] new_order_row(
                request.table_number as int,
                request.item_name@,
                now,
                random,
            ) && row.ready_at.in_ready_window(now),
{
    let now = current_time();
    let random: i64 = rand::random::<i64>();
    let row = new_order(request, now, random);
    assert(row@ == new_order_row(
        request.table_number as int,
        request.item_name@,
        now,
        random as int,
    ));
    row
}

fn error_body(details: String) -> (body: Body)
    ensures
        body@ == BodyView::Error(details@),
{
    Body::Error(ErrorResponse { details })
}

/// Turns a failure of the database into the reply that reports it: 404 for a
/// missing row, 422 with the database's message for a broken constraint, 500
/// with a fixed sentence for anything else.
pub fn map_db_error_to_http(error: DbError) -> (reply: HttpReply)
    ensures
        reply@ == error_reply(error@),
{
    match error {
        DbError::RowNotFound => HttpReply {
            status: NOT_FOUND,
            body: error_body(String::from_str("Record Not found")),
        },
        DbError::Database { kind, message } => match kind {
            DbErrorKind::Other => HttpReply {
                status: INTERNAL_SERVER_ERROR,
                body: error_body(String::from_str("Internal Server Error")),
            },
            _ => HttpReply { status: UNPROCESSABLE_ENTITY, body: error_body(message) },
        },
        DbError::Other => HttpReply {
            status: INTERNAL_SERVER_ERROR,
            body: error_body(String::from_str("Internal Server Error")),
        },
    }
}

/// Answers a request that lists orders: 200 with the orders found, which may
/// be none, or the reply that reports the failure.
pub fn get_multiple(found: Result<Vec<Order>, DbError>) -> (reply: HttpReply)
    ensures
        reply@ == get_multiple_reply(listing_view(found)),
{
    match found {
        Ok(orders) => HttpReply { status: OK, body: Body::Orders(orders) },
        Err(error) => map_db_error_to_http(error),
    }
}

/// Answers a request for one order: 200 with the order, or the reply that
/// reports the failure.
pub fn get_single(found: Result<Order, DbError>) -> (reply: HttpReply)
    ensures
        reply@ == get_single_reply(order_outcome_view(found)),
{
    match found {
        Ok(order) => HttpReply { status: OK, body: Body::Order(order) },
        Err(error) => map_db_error_to_http(error),
    }
}

/// Answers a request that places an order: 201 with the row as it was stored,
/// or the reply that reports the failure.
pub fn post_single(created: Result<Order, DbError>) -> (reply: HttpReply)
    ensures
        reply@ == post_single_reply(order_outcome_view(created)),
{
    match created {
        Ok(order) => HttpReply { status: CREATED, body: Body::Order(order) },
        Err(error) => map_db_error_to_http(error),
    }
}

/// Answers a request that deletes an order: 204 without a body, or the reply
/// that reports the failure.
pub fn delete_single(deleted: Result<(), DbError>) -> (reply: HttpReply)
    ensures
        reply@ == delete_single_reply(unit_outcome_view(deleted)),
{
    match deleted {
        Ok(_) => HttpReply { status: NO_CONTENT, body: Body::Empty },
        Err(error) => map_db_error_to_http(error),
    }
}

} // verus!
