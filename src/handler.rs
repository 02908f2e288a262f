//! The decisions of the `GET /` handler: borrow a connection, run one fixed
//! query, read one integer column and answer with its decimal text, turning
//! any failure into a 500 reply.
//!
//! The waiting (for a connection, for the row) happens outside; each time it
//! ends, the outcome comes back here as an `Event`, and `step` says what to
//! do next.
use vstd::prelude::*;

verus! {

/// The HTTP status of a failed request.
pub const INTERNAL_SERVER_ERROR: u16 = 500;

/// The only column that is read from the result row.
pub const VALUE_COLUMN: usize = 0;

/// How far a request has come.
#[derive(Clone, Copy, Debug, PartialEq, Eq, Structural)]
pub enum Stage {
    /// Waiting for a connection from the pool.
    Checkout,
    /// Waiting for the row of the query.
    Query,
    /// Waiting for the column's value.
    Decode,
    /// The reply has been given.
    Done,
}

/// How the last awaited operation ended.
#[derive(Debug)]
pub enum Event {
    /// It succeeded and there is nothing to hand over.
    Ready,
    /// The column was read and holds this integer.
    Value(i32),
    /// It failed; this is the error's text.
    Failed(String),
}

/// What the handler must do next.
#[derive(Debug)]
pub enum Action {
    /// Check a connection out of the pool.
    AcquireConnection,
    /// Run the probe query on the connection, expecting exactly one row.
    RunQuery,
    /// Read this column of the row as an integer.
    ReadColumn(usize),
    /// Answer the request; the connection goes back to the pool.
    Reply(Result<String, (u16, String)>),
}

/// An event, with its text as a sequence of characters.
pub enum EventView {
    Ready,
    Value(i32),
    Failed(Seq<char>),
}

/// An action, with its texts as sequences of characters.
pub enum ActionView {
    AcquireConnection,
    RunQuery,
    ReadColumn(usize),
    Reply(Result<Seq<char>, (u16, Seq<char>)>),
}

impl View for Event {
    type V = EventView;

    open spec fn view(&self) -> EventView {
        match self {
            Event::Ready => EventView::Ready,
            Event::Value(v) => EventView::Value(*v),
            Event::Failed(t) => EventView::Failed(t@),
        }
    }
}

impl View for Action {
    type V = ActionView;

    open spec fn view(&self) -> ActionView {
        match self {
            Action::AcquireConnection => ActionView::AcquireConnection,
            Action::RunQuery => ActionView::RunQuery,
            Action::ReadColumn(c) => ActionView::ReadColumn(*c),
            Action::Reply(Ok(body)) => ActionView::Reply(Ok(body@)),
            Action::Reply(Err(e)) => ActionView::Reply(Err((e.0, e.1@))),
        }
    }
}

/// The character of a decimal digit.
pub open spec fn digit_char(d: nat) -> char
    recommends
        d < 10,
{
    seq!['0', '1', '2', '3', '4', '5', '6', '7', '8', '9'][d as int]
}

/// The decimal digits of a natural number, most significant first, with no
/// leading zero.
pub open spec fn digits(n: nat) -> Seq<char>
    decreases n,
{
    if n < 10 {
        seq![digit_char(n)]
    } else {
        digits(n / 10) + seq![digit_char(n % 10)]
    }
}

/// The decimal text of an integer, with a leading `-` when it is negative.
pub open spec fn decimal(v: int) -> Seq<char> {
    if v < 0 {
        seq!['-'] + digits((-v) as nat)
    } else {
        digits(v as nat)
    }
}

/// The text of the reply to an event that the current stage does not expect.
pub open spec fn unexpected_text() -> Seq<char> {
    "unknown database error"@
}

/// What the handler does on `e` in `stage`: each success moves one stage
/// on, the integer is answered with its decimal text, and a failure at any
/// stage is answered with status 500 and the failure's text.
pub open spec fn step_spec(stage: Stage, e: EventView) -> (Stage, ActionView) {
    match e {
        EventView::Ready => match stage {
            Stage::Checkout => (Stage::Query, ActionView::RunQuery),
            Stage::Query => (Stage::Decode, ActionView::ReadColumn(VALUE_COLUMN)),
            _ => (Stage::Done, ActionView::Reply(Err((INTERNAL_SERVER_ERROR, unexpected_text())))),
        },
        EventView::Value(v) => if stage == Stage::Decode {
            (Stage::Done, ActionView::Reply(Ok(decimal(v as int))))
        } else {
            (Stage::Done, ActionView::Reply(Err((INTERNAL_SERVER_ERROR, unexpected_text()))))
        },
        EventView::Failed(t) => if stage != Stage::Done {
            (Stage::Done, ActionView::Reply(Err((INTERNAL_SERVER_ERROR, t))))
        } else {
            (Stage::Done, ActionView::Reply(Err((INTERNAL_SERVER_ERROR, unexpected_text()))))
        },
    }
}

/// Where a request stands after the events `es`, from its start.
pub open spec fn replay(es: Seq<EventView>) -> (Stage, ActionView)
    decreases es.len(),
{
    if es.len() == 0 {
        (Stage::Checkout, ActionView::AcquireConnection)
    } else {
        step_spec(replay(es.drop_last()).0, es.last())
    }
}

/// Relies on `<i32 as ToString>::to_string`, whose `Display` writes an
/// integer in decimal, with a `-` before a negative one.
#[verifier::external_body]
fn decimal_text(v: i32) -> (r: String)
    ensures
        r@ == decimal(v as int),
{
    v.to_string()
}

/// The query that checks the connection.
pub fn probe_query() -> (r: &'static str)
    ensures
        r@ == "select 1 + 1"@,
{
    proof {
        reveal_strlit("select 1 + 1");
    }
    "select 1 + 1"
}

/// Turns a failure into a reply: status 500, with the failure's text as body.
pub fn internal_error(text: String) -> (r: (u16, String))
    ensures
        r.0 == INTERNAL_SERVER_ERROR,
        r.1@ == text@,
{
    (INTERNAL_SERVER_ERROR, text)
}

/// How every request starts: at the checkout, asking for a connection.
pub fn start() -> (r: (Stage, Action))
    ensures
        (r.0, r.1@) == replay(Seq::empty()),
{
    (Stage::Checkout, Action::AcquireConnection)
}

fn unexpected_reply() -> (r: (Stage, Action))
    ensures
        r.0 == Stage::Done,
        r.1@ == ActionView::Reply(Err((INTERNAL_SERVER_ERROR, unexpected_text()))),
{
    proof {
        reveal_strlit("unknown database error");
    }
    broadcast use vstd::string::group_string_axioms;
    let text = "unknown database error".to_string();
    (Stage::Done, Action::Reply(Err(internal_error(text))))
}

/// Takes the outcome of the last awaited operation and says where the
/// request now stands and what to do next.
pub fn step(stage: Stage, event: Event) -> (r: (Stage, Action))
    ensures
        (r.0, r.1@) == step_spec(stage, event@),
{
    match event {
        Event::Ready => match stage {
            Stage::Checkout => (Stage::Query, Action::RunQuery),
            Stage::Query => (Stage::Decode, Action::ReadColumn(VALUE_COLUMN)),
            _ => unexpected_reply(),
        },
        Event::Value(v) => if stage == Stage::Decode {
            (Stage::Done, Action::Reply(Ok(decimal_text(v))))
        } else {
            unexpected_reply()
        },
        Event::Failed(t) => if stage != Stage::Done {
            (Stage::Done, Action::Reply(Err(internal_error(t))))
        } else {
            unexpected_reply()
        },
    }
}

/// A request whose connection, query and column all succeed is answered
/// with the column's decimal text; the probe's `2` gives exactly `"2"`.
pub proof fn lemma_healthy_request(v: i32)
    ensures
        replay(seq![EventView::Ready, EventView::Ready, EventView::Value(v)])
            == (Stage::Done, ActionView::Reply(Ok(decimal(v as int)))),
        decimal(2) == seq!['2'],
{
    let e0 = Seq::<EventView>::empty();
    let e1 = e0.push(EventView::Ready);
    let e2 = e1.push(EventView::Ready);
    let e3 = e2.push(EventView::Value(v));
    assert(e1.drop_last() =~= e0);
    assert(e2.drop_last() =~= e1);
    assert(e3.drop_last() =~= e2);
    assert(replay(e0).0 == Stage::Checkout);
    assert(e1.last() == EventView::Ready);
    assert(step_spec(Stage::Checkout, EventView::Ready) == (Stage::Query, ActionView::RunQuery));
    assert(replay(e1) == (Stage::Query, ActionView::RunQuery));
    assert(replay(e2) == (Stage::Decode, ActionView::ReadColumn(VALUE_COLUMN)));
    assert(e3 =~= seq![EventView::Ready, EventView::Ready, EventView::Value(v)]);
    assert(digits(2) == seq![digit_char(2)]);
}

/// A failure at any stage before the reply (no connection, a failed query, a
/// column that cannot be read) ends the request with status 500 and the
/// failure's text as body.
pub proof fn lemma_failure_is_internal_error(es: Seq<EventView>, t: Seq<char>)
    requires
        replay(es).0 != Stage::Done,
    ensures
        replay(es.push(EventView::Failed(t)))
            == (Stage::Done, ActionView::Reply(Err((INTERNAL_SERVER_ERROR, t)))),
{
    assert(es.push(EventView::Failed(t)).drop_last() =~= es);
}

/// Every request ends: a reply always leaves it done, and once done it never
/// asks for a connection or a query again, so nothing of it carries over to
/// the next request.
pub proof fn lemma_reply_ends_request(es: Seq<EventView>, e: EventView)
    ensures
        replay(es.push(e)).1 is Reply ==> replay(es.push(e)).0 == Stage::Done,
        replay(es).0 == Stage::Done ==> replay(es.push(e)).1 is Reply,
{
    assert(es.push(e).drop_last() =~= es);
}

} // verus!
