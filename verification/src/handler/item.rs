use vstd::prelude::*;

use crate::domain::item::{Item, ItemParams, ItemRange};
use crate::handler::response::{
    AppError, HandlerResult, JsonData, NotFound, STATUS_CREATED, STATUS_OK,
};

verus! {

// The item handlers talk to the store in steps: begin a transaction, write,
// read back, commit. The decisions between those steps are made here, as a
// state machine from a flow and the outcome of the last step to the next
// flow and the next step. The store itself is driven by the caller.

/// The data a successful item reply carries.
#[derive(Debug, Clone, PartialEq, Eq)]
pub enum Reply {
    One(Item),
    Many(Vec<Item>),
    Empty,
}

/// How a request ended.
#[derive(Debug, Clone, PartialEq, Eq)]
pub enum Outcome {
    /// The item was found (or changed and read back).
    Found(Item),
    /// A page of items.
    Listed(Vec<Item>),
    /// The item was created and read back.
    Created(Item),
    /// The item was removed.
    Removed,
    /// No item has the requested identifier.
    Missing,
    /// A step of the store failed.
    Failed,
}

/// The next thing the caller does with the store, or the reply.
#[derive(Debug, Clone, PartialEq, Eq)]
pub enum Action {
    /// Open a transaction; later steps run inside it until `Commit`.
    Begin,
    /// Read the item with this identifier.
    FindById { id: u128 },
    /// Read the items with identifiers below `before`, newest first, at most `limit`.
    FindByRange { before: u128, limit: i64 },
    /// Store a new item made from `params`, and report its identifier.
    Insert { params: ItemParams },
    /// Overwrite the item `id` with `params`.
    Update { id: u128, params: ItemParams },
    /// Remove the item `id`.
    Delete { id: u128 },
    /// Commit the open transaction.
    Commit,
    /// Answer the request; the flow is over. An open transaction that was
    /// not committed is rolled back.
    Respond { outcome: Outcome },
}

/// What the last step of the store gave.
#[derive(Debug, Clone, PartialEq, Eq)]
pub enum Event {
    Began,
    Inserted { id: u128 },
    Updated,
    Deleted,
    Row { found: Option<Item> },
    Rows { items: Vec<Item> },
    Committed,
    Failed,
}

/// Where a request stands.
#[derive(Debug, Clone, PartialEq, Eq)]
pub enum Flow {
    /// Waiting for the row of a lookup.
    Find,
    /// Waiting for the rows of a page.
    Index,
    /// Waiting for the transaction of a creation.
    CreateBegin { params: ItemParams },
    /// Waiting for the identifier of the new item.
    CreateInsert,
    /// Waiting for the new item to be read back.
    CreateRead,
    /// Waiting for the commit of a creation.
    CreateCommit { item: Item },
    /// Waiting for the transaction of a change.
    UpdateBegin { id: u128, params: ItemParams },
    /// Waiting for the change to be written.
    UpdateWrite { id: u128 },
    /// Waiting for the changed item to be read back.
    UpdateRead,
    /// Waiting for the commit of a change.
    UpdateCommit { item: Item },
    /// Waiting for a removal.
    Delete,
    /// The request was answered.
    Finished,
}

/// The end of a flow with the given outcome.
pub open spec fn finish(outcome: Outcome) -> (Flow, Action) {
    (Flow::Finished, Action::Respond { outcome })
}

/// The end of a flow whose step failed or answered out of turn.
pub open spec fn fail() -> (Flow, Action) {
    finish(Outcome::Failed)
}

/// The next flow and the next step, given the outcome of the last step.
pub open spec fn next(flow: Flow, event: Event) -> (Flow, Action) {
    match flow {
        Flow::Find => match event {
            Event::Row { found: Some(item) } => finish(Outcome::Found(item)),
            Event::Row { found: None } => finish(Outcome::Missing),
            _ => fail(),
        },
        Flow::Index => match event {
            Event::Rows { items } => finish(Outcome::Listed(items)),
            _ => fail(),
        },
        Flow::CreateBegin { params } => match event {
            Event::Began => (Flow::CreateInsert, Action::Insert { params }),
            _ => fail(),
        },
        Flow::CreateInsert => match event {
            Event::Inserted { id } => (Flow::CreateRead, Action::FindById { id }),
            _ => fail(),
        },
        Flow::CreateRead => match event {
            Event::Row { found: Some(item) } => (Flow::CreateCommit { item }, Action::Commit),
            Event::Row { found: None } => finish(Outcome::Missing),
            _ => fail(),
        },
        Flow::CreateCommit { item } => match event {
            Event::Committed => finish(Outcome::Created(item)),
            _ => fail(),
        },
        Flow::UpdateBegin { id, params } => match event {
            Event::Began => (Flow::UpdateWrite { id }, Action::Update { id, params }),
            _ => fail(),
        },
        Flow::UpdateWrite { id } => match event {
            Event::Updated => (Flow::UpdateRead, Action::FindById { id }),
            _ => fail(),
        },
        Flow::UpdateRead => match event {
            Event::Row { found: Some(item) } => (Flow::UpdateCommit { item }, Action::Commit),
            Event::Row { found: None } => finish(Outcome::Missing),
            _ => fail(),
        },
        Flow::UpdateCommit { item } => match event {
            Event::Committed => finish(Outcome::Found(item)),
            _ => fail(),
        },
        Flow::Delete => match event {
            Event::Deleted => finish(Outcome::Removed),
            _ => fail(),
        },
        Flow::Finished => fail(),
    }
}

/// How many steps a flow can still take before it answers.
pub open spec fn remaining_steps(flow: Flow) -> nat {
    match flow {
        Flow::Find | Flow::Index | Flow::Delete => 1,
        Flow::CreateBegin { .. } | Flow::UpdateBegin { .. } => 4,
        Flow::CreateInsert | Flow::UpdateWrite { .. } => 3,
        Flow::CreateRead | Flow::UpdateRead => 2,
        Flow::CreateCommit { .. } | Flow::UpdateCommit { .. } => 1,
        Flow::Finished => 0,
    }
}

/// Looking an item up: read it by its identifier.
pub fn find(id: u128) -> (r: (Flow, Action))
    ensures
        r == (Flow::Find, Action::FindById { id }),
{
    (Flow::Find, Action::FindById { id })
}

/// Listing a page: read the items below the bound of `range`, at most its
/// page size.
pub fn index(range: &ItemRange) -> (r: (Flow, Action))
    ensures
        r == (Flow::Index, Action::FindByRange {
            before: range.spec_before(),
            limit: range.spec_limit(),
        }),
{
    let (before, limit) = range.extract();
    (Flow::Index, Action::FindByRange { before, limit })
}

/// Creating an item: open a transaction first.
pub fn create(params: ItemParams) -> (r: (Flow, Action))
    ensures
        r == (Flow::CreateBegin { params }, Action::Begin),
{
    (Flow::CreateBegin { params }, Action::Begin)
}

/// Changing an item: open a transaction first.
pub fn update(id: u128, params: ItemParams) -> (r: (Flow, Action))
    ensures
        r == (Flow::UpdateBegin { id, params }, Action::Begin),
{
    (Flow::UpdateBegin { id, params }, Action::Begin)
}

/// Removing an item.
pub fn delete(id: u128) -> (r: (Flow, Action))
    ensures
        r == (Flow::Delete, Action::Delete { id }),
{
    (Flow::Delete, Action::Delete { id })
}

/// The next flow and step after `event`.
pub fn step(flow: Flow, event: Event) -> (r: (Flow, Action))
    ensures
        r == next(flow, event),
{
    match flow {
        Flow::Find => match event {
            Event::Row { found: Some(item) } => (Flow::Finished, Action::Respond { outcome: Outcome::Found(item) }),
            Event::Row { found: None } => (Flow::Finished, Action::Respond { outcome: Outcome::Missing }),
            _ => (Flow::Finished, Action::Respond { outcome: Outcome::Failed }),
        },
        Flow::Index => match event {
            Event::Rows { items } => (Flow::Finished, Action::Respond { outcome: Outcome::Listed(items) }),
            _ => (Flow::Finished, Action::Respond { outcome: Outcome::Failed }),
        },
        Flow::CreateBegin { params } => match event {
            Event::Began => (Flow::CreateInsert, Action::Insert { params }),
            _ => (Flow::Finished, Action::Respond { outcome: Outcome::Failed }),
        },
        Flow::CreateInsert => match event {
            Event::Inserted { id } => (Flow::CreateRead, Action::FindById { id }),
            _ => (Flow::Finished, Action::Respond { outcome: Outcome::Failed }),
        },
        Flow::CreateRead => match event {
            Event::Row { found: Some(item) } => (Flow::CreateCommit { item }, Action::Commit),
            Event::Row { found: None } => (Flow::Finished, Action::Respond { outcome: Outcome::Missing }),
            _ => (Flow::Finished, Action::Respond { outcome: Outcome::Failed }),
        },
        Flow::CreateCommit { item } => match event {
            Event::Committed => (Flow::Finished, Action::Respond { outcome: Outcome::Created(item) }),
            _ => (Flow::Finished, Action::Respond { outcome: Outcome::Failed }),
        },
        Flow::UpdateBegin { id, params } => match event {
            Event::Began => (Flow::UpdateWrite { id }, Action::Update { id, params }),
            _ => (Flow::Finished, Action::Respond { outcome: Outcome::Failed }),
        },
        Flow::UpdateWrite { id } => match event {
            Event::Updated => (Flow::UpdateRead, Action::FindById { id }),
            _ => (Flow::Finished, Action::Respond { outcome: Outcome::Failed }),
        },
        Flow::UpdateRead => match event {
            Event::Row { found: Some(item) } => (Flow::UpdateCommit { item }, Action::Commit),
            Event::Row { found: None } => (Flow::Finished, Action::Respond { outcome: Outcome::Missing }),
            _ => (Flow::Finished, Action::Respond { outcome: Outcome::Failed }),
        },
        Flow::UpdateCommit { item } => match event {
            Event::Committed => (Flow::Finished, Action::Respond { outcome: Outcome::Found(item) }),
            _ => (Flow::Finished, Action::Respond { outcome: Outcome::Failed }),
        },
        Flow::Delete => match event {
            Event::Deleted => (Flow::Finished, Action::Respond { outcome: Outcome::Removed }),
            _ => (Flow::Finished, Action::Respond { outcome: Outcome::Failed }),
        },
        Flow::Finished => (Flow::Finished, Action::Respond { outcome: Outcome::Failed }),
    }
}

/// The reply an outcome is answered with.
pub open spec fn reply_matches(outcome: Outcome, r: HandlerResult<JsonData<Reply>>) -> bool {
    match outcome {
        Outcome::Found(item) => r == Ok::<JsonData<Reply>, AppError>(
            JsonData { status: STATUS_OK, data: Reply::One(item) },
        ),
        Outcome::Listed(items) => r == Ok::<JsonData<Reply>, AppError>(
            JsonData { status: STATUS_OK, data: Reply::Many(items) },
        ),
        Outcome::Created(item) => r == Ok::<JsonData<Reply>, AppError>(
            JsonData { status: STATUS_CREATED, data: Reply::One(item) },
        ),
        Outcome::Removed => r == Ok::<JsonData<Reply>, AppError>(
            JsonData { status: STATUS_OK, data: Reply::Empty },
        ),
        Outcome::Missing => r matches Err(e) && e.is_not_found(),
        Outcome::Failed => r == Err::<JsonData<Reply>, AppError>(AppError::ServerError),
    }
}

/// The reply for an outcome: found and changed items with `200`, pages with
/// `200`, created items with `201`, removals with `200` and no data, a
/// missing item with the not-found error, a failure with the server error.
pub fn respond(outcome: Outcome) -> (r: HandlerResult<JsonData<Reply>>)
    ensures
        reply_matches(outcome, r),
        outcome matches Outcome::Listed(items) ==> {
            &&& r is Ok
            &&& r->Ok_0.status == 200
            &&& r->Ok_0.data is Many
            &&& r->Ok_0.data->Many_0@ == items@
        },
        outcome matches Outcome::Found(item) ==> r == Ok::<JsonData<Reply>, AppError>(
            JsonData { status: 200, data: Reply::One(item) },
        ),
        outcome matches Outcome::Created(item) ==> r == Ok::<JsonData<Reply>, AppError>(
            JsonData { status: 201, data: Reply::One(item) },
        ),
{
    let ghost given = outcome;
    let r = match outcome {
        Outcome::Found(item) => JsonData::ok(Reply::One(item)),
        Outcome::Listed(items) => JsonData::ok(Reply::Many(items)),
        Outcome::Created(item) => JsonData::created(Reply::One(item)),
        Outcome::Removed => JsonData::empty(),
        Outcome::Missing => Err(AppError::from_not_found(NotFound)),
        Outcome::Failed => Err(AppError::from_failure()),
    };
    proof {
        lemma_replies_carry_the_outcome(given, r);
    }
    r
}

impl JsonData<Reply> {
    /// A `200 OK` reply without data.
    pub fn empty() -> (r: HandlerResult<JsonData<Reply>>)
        ensures
            r == Ok::<JsonData<Reply>, AppError>(JsonData { status: STATUS_OK, data: Reply::Empty }),
    {
        JsonData::ok(Reply::Empty)
    }
}

// ---------------------------------------------------------------------------
// Laws of the flows.
// ---------------------------------------------------------------------------

/// A failed step ends every flow, and the request is answered with the
/// server error.
pub proof fn lemma_failure_answers_server_error(flow: Flow)
    ensures
        next(flow, Event::Failed) == fail(),
{
}

/// Every step brings a flow closer to its answer: the flow that follows has
/// fewer steps left, and the step is the answer exactly when nothing is left.
pub proof fn lemma_flow_progress(flow: Flow, event: Event)
    requires
        !(flow is Finished),
    ensures
        remaining_steps(next(flow, event).0) < remaining_steps(flow),
        (next(flow, event).0 is Finished) <==> (next(flow, event).1 is Respond),
{
}

/// A transaction is committed only after the written item was read back,
/// and the flow then holds that item.
pub proof fn lemma_commit_only_after_read_back(flow: Flow, event: Event)
    requires
        next(flow, event).1 is Commit,
    ensures
        flow is CreateRead || flow is UpdateRead,
        event matches Event::Row { found: Some(item) } && (
            next(flow, event).0 == Flow::CreateCommit { item }
            || next(flow, event).0 == Flow::UpdateCommit { item }),
{
}

/// A creation or a change succeeds only once its transaction was committed,
/// and the reply carries the item that was read back inside it.
pub proof fn lemma_write_succeeds_only_after_commit(flow: Flow, event: Event, item: Item)
    requires
        !(flow is Find || flow is Index || flow is Delete),
        next(flow, event).1 == (Action::Respond { outcome: Outcome::Created(item) })
            || next(flow, event).1 == (Action::Respond { outcome: Outcome::Found(item) }),
    ensures
        event is Committed,
        flow == (Flow::CreateCommit { item }) || flow == (Flow::UpdateCommit { item }),
{
}

/// After an insertion the flow reads back exactly the identifier the store
/// reported for the new item.
pub proof fn lemma_create_reads_back_inserted_id(id: u128)
    ensures
        next(Flow::CreateInsert, Event::Inserted { id }) == (Flow::CreateRead, Action::FindById { id }),
{
}

/// A change writes to and then reads back the item it was asked for.
pub proof fn lemma_update_targets_requested_id(id: u128, params: ItemParams)
    ensures
        next(Flow::UpdateBegin { id, params }, Event::Began) == (
            Flow::UpdateWrite { id },
            Action::Update { id, params },
        ),
        next(Flow::UpdateWrite { id }, Event::Updated) == (Flow::UpdateRead, Action::FindById { id }),
{
}

/// A lookup, a creation or a change that finds no item is answered with the
/// not-found refusal, and nothing is committed.
pub proof fn lemma_missing_item_is_not_found(flow: Flow)
    requires
        flow is Find || flow is CreateRead || flow is UpdateRead,
    ensures
        next(flow, Event::Row { found: None }) == finish(Outcome::Missing),
{
}

/// The not-found outcome is answered with status 404 and `NOT FOUND`; a
/// failure with status 500 and `INTERNAL SERVER ERROR`.
pub proof fn lemma_refusals(r: HandlerResult<JsonData<Reply>>, s: HandlerResult<JsonData<Reply>>)
    requires
        reply_matches(Outcome::Missing, r),
        reply_matches(Outcome::Failed, s),
    ensures
        r matches Err(e) && e.spec_status() == 404 && e.spec_message() == "NOT FOUND"@,
        s matches Err(e) && e.spec_status() == 500 && e.spec_message() == "INTERNAL SERVER ERROR"@,
{
}

/// A reply carries what the request ended with: a page is answered with
/// `200` and exactly its items (same number, same items, same order); a
/// found or changed item with `200` and that item; a created item with `201`
/// and that item.
pub proof fn lemma_replies_carry_the_outcome(outcome: Outcome, r: HandlerResult<JsonData<Reply>>)
    requires
        reply_matches(outcome, r),
    ensures
        outcome matches Outcome::Listed(items) ==> {
            &&& r is Ok
            &&& r->Ok_0.status == 200
            &&& r->Ok_0.data is Many
            &&& r->Ok_0.data->Many_0@.len() == items@.len()
            &&& forall|i: int|
                0 <= i < items@.len() ==> r->Ok_0.data->Many_0@[i] == #[trigger] items@[i]
        },
        outcome matches Outcome::Found(item) ==> r == Ok::<JsonData<Reply>, AppError>(
            JsonData { status: 200, data: Reply::One(item) },
        ),
        outcome matches Outcome::Created(item) ==> r == Ok::<JsonData<Reply>, AppError>(
            JsonData { status: 201, data: Reply::One(item) },
        ),
        outcome is Removed ==> r == Ok::<JsonData<Reply>, AppError>(
            JsonData { status: 200, data: Reply::Empty },
        ),
{
}

} // verus!
