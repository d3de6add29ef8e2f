//! The endpoints of the service.
//!
//! Every endpoint but the health check is at most one round trip to the
//! store: a function here says which operation the endpoint issues, and
//! another says how the store's outcome is answered. A success is answered
//! with the endpoint's fixed success status and the store's acknowledgment as
//! it came; a failure is answered with its classification, and comes with the
//! line that goes to the server's log. No handler retries, caches or keeps
//! state between requests.

use vstd::prelude::*;
use crate::http::{Endpoint, StatusCode};
use crate::store::{
    DbInfo, DeleteMany, DeleteResult, Filter, Find, InsertMany, InsertManyResult, Sort, SortOrder,
    Update, UpdateMany, UpdateResult, APP_NAME, ID_FIELD, PROJECTS, USERS,
};
use crate::models::project::{Projects, Users};
use crate::utils::mongo_errors::{classify, log_line, ErrorResponse, StoreError};

verus! {

/// What the health check answers.
pub const CHECK_TEXT: &'static str = "It's working.";

/// The field by which the project endpoints select records.
pub const SELECT_FIELD: &'static str = "project_name";

/// The value of `SELECT_FIELD` that the project endpoints select.
pub const SELECT_VALUE: &'static str = "test1";

/// The value that the update endpoint writes into `SELECT_FIELD`.
pub const UPDATED_VALUE: &'static str = "test111";

/// What a client is told about a body that could not be read, where the
/// transport has no words of its own for it.
pub const MALFORMED_BODY: &'static str = "the request body is not a sequence of records";

/// A successful answer: a status and a body.
#[derive(Clone, Debug, PartialEq, Eq)]
pub struct Response<T> {
    pub status: StatusCode,
    pub body: T,
}

/// `answer` is the answer to `outcome` at an endpoint whose success status is
/// `status`: the store's acknowledgment under that status, or the
/// classification of the store's failure.
pub open spec fn answers<T>(
    outcome: Result<T, StoreError>,
    status: StatusCode,
    answer: Result<Response<T>, ErrorResponse>,
) -> bool {
    match outcome {
        Ok(body) => answer == Ok::<Response<T>, ErrorResponse>(Response { status, body }),
        Err(e) => answer matches Err(response) && response.status == e.status()
            && response.message@ == e.message(),
    }
}

/// `line` is what the server logs for `outcome`: nothing for a success, and
/// the full rendering of the failure, whatever its category, for a failure.
pub open spec fn logs<T>(outcome: Result<T, StoreError>, line: Option<String>) -> bool {
    match outcome {
        Ok(_) => line is None,
        Err(e) => line matches Some(text) && text@ == e.text@,
    }
}

/// Answers the outcome of a store operation: the acknowledgment unchanged
/// under `status`, or the failure classified. With the answer comes the line
/// to write to the server's log: a failure is logged by its rendering, which
/// is taken before the failure is classified; a success is not logged.
pub fn respond_logged<T>(status: StatusCode, outcome: Result<T, StoreError>) -> (out: (
    Option<String>,
    Result<Response<T>, ErrorResponse>,
))
    ensures
        logs(outcome, out.0),
        answers(outcome, status, out.1),
{
    match outcome {
        Ok(body) => (None, Ok(Response { status, body })),
        Err(e) => {
            let line = log_line(&e);
            (Some(line), Err(classify(e)))
        },
    }
}

/// The answer to a request whose body is not a sequence of records of the
/// expected shape: no store operation is issued, and the client is told
/// what is wrong with status 400. The message is the transport's
/// description of the fault, or `MALFORMED_BODY` where that is empty, so
/// it is never empty.
pub fn malformed_body(detail: String) -> (response: ErrorResponse)
    ensures
        response.status == StatusCode::BadRequest,
        response.message@ == (if detail@.len() > 0 {
            detail@
        } else {
            MALFORMED_BODY@
        }),
        response.message@.len() > 0,
{
    proof {
        reveal_strlit("the request body is not a sequence of records");
    }
    if detail.as_str().is_empty() {
        ErrorResponse { status: StatusCode::BadRequest, message: MALFORMED_BODY.to_owned() }
    } else {
        ErrorResponse { status: StatusCode::BadRequest, message: detail }
    }
}

/// The filter that the project endpoints apply.
pub fn project_filter() -> (filter: Filter)
    ensures
        filter.field@ == SELECT_FIELD@,
        filter.value@ == SELECT_VALUE@,
{
    Filter { field: SELECT_FIELD.to_owned(), value: SELECT_VALUE.to_owned() }
}

/// The health check: a fixed text, whatever the state of the store.
pub fn check() -> (text: &'static str)
    ensures
        text@ == CHECK_TEXT@,
{
    CHECK_TEXT
}

/// What the service hands to the store connector: the connection string as
/// configured, and the service's name.
pub fn get_dbinfo(connection_string: String) -> (info: DbInfo)
    ensures
        info.connection_string == connection_string,
        info.app_name@ == APP_NAME@,
{
    DbInfo { connection_string, app_name: APP_NAME.to_owned() }
}

/// What the result stream of a query delivers when it is pulled once.
#[derive(Clone, Debug, PartialEq, Eq)]
pub enum CursorEvent {
    /// The next record.
    Item(Projects),
    /// The stream is exhausted.
    End,
    /// The stream broke.
    Fault(StoreError),
}

/// Where the reading of a result stream stands.
#[derive(Debug, PartialEq, Eq)]
pub enum Collecting {
    /// These records were read; the stream is to be pulled again.
    More(Vec<Projects>),
    /// The stream is done: with all its records, or with the fault that broke
    /// it.
    Finished(Result<Vec<Projects>, StoreError>),
}

/// What `Collecting` holds.
pub enum CollectingView {
    More(Seq<Projects>),
    Finished(Result<Seq<Projects>, StoreError>),
}

impl View for Collecting {
    type V = CollectingView;

    open spec fn view(&self) -> CollectingView {
        match self {
            Collecting::More(records) => CollectingView::More(records@),
            Collecting::Finished(Ok(records)) => CollectingView::Finished(Ok(records@)),
            Collecting::Finished(Err(e)) => CollectingView::Finished(Err(*e)),
        }
    }
}

/// One step of reading a result stream: a record is appended to those read so
/// far, the end of the stream finishes with all of them, and a fault finishes
/// with the fault and none of them.
pub open spec fn collect_step(read: Seq<Projects>, event: CursorEvent) -> CollectingView {
    match event {
        CursorEvent::Item(record) => CollectingView::More(read.push(record)),
        CursorEvent::End => CollectingView::Finished(Ok(read)),
        CursorEvent::Fault(e) => CollectingView::Finished(Err(e)),
    }
}

/// Reading a whole stream: `events` are taken in order, from the state
/// `state`, until one of them finishes the reading. Events after that one
/// are never pulled.
pub open spec fn collect_all(state: CollectingView, events: Seq<CursorEvent>) -> CollectingView
    decreases events.len(),
{
    match state {
        CollectingView::Finished(_) => state,
        CollectingView::More(read) => if events.len() == 0 {
            state
        } else {
            collect_all(collect_step(read, events[0]), events.skip(1))
        },
    }
}

/// The query of the list endpoint: the projects that the fixed filter
/// selects, newest first, that is by descending identifier.
pub fn get_projects_request() -> (query: Find)
    ensures
        query.collection@ == PROJECTS@,
        query.filter.field@ == SELECT_FIELD@,
        query.filter.value@ == SELECT_VALUE@,
        query.sort.field@ == ID_FIELD@,
        query.sort.order == SortOrder::Descending,
{
    Find {
        collection: PROJECTS.to_owned(),
        filter: project_filter(),
        sort: Sort { field: ID_FIELD.to_owned(), order: SortOrder::Descending },
    }
}

/// The state in which the reading of a result stream begins: nothing read.
pub fn collect_begin() -> (state: Collecting)
    ensures
        state@ == CollectingView::More(Seq::<Projects>::empty()),
{
    Collecting::More(Vec::new())
}

/// Takes what the stream delivered after `read`, and says whether to pull
/// again.
pub fn collect_next(read: Vec<Projects>, event: CursorEvent) -> (state: Collecting)
    ensures
        state@ == collect_step(read@, event),
{
    let mut read = read;
    match event {
        CursorEvent::Item(record) => {
            read.push(record);
            Collecting::More(read)
        },
        CursorEvent::End => Collecting::Finished(Ok(read)),
        CursorEvent::Fault(e) => Collecting::Finished(Err(e)),
    }
}

/// The answer of the list endpoint: 200 with every record that the query
/// delivered, in the order of delivery, or the classification of the failure
/// of the query or of its stream.
pub fn get_projects_response(outcome: Result<Vec<Projects>, StoreError>) -> (out: (
    Option<String>,
    Result<Response<Vec<Projects>>, ErrorResponse>,
))
    ensures
        logs(outcome, out.0),
        answers(outcome, StatusCode::Okay, out.1),
{
    respond_logged(Endpoint::GetProjects.success_status(), outcome)
}

/// What a create endpoint does with a request: answer it at once, or issue
/// an insert.
#[derive(Clone, Debug, PartialEq, Eq)]
pub enum CreatePlan<T> {
    /// Nothing is asked of the store; this is the answer.
    Answer(Response<InsertManyResult>),
    /// This insert is issued, and its outcome answered.
    Issue(InsertMany<T>),
}

/// The submitted projects as they are handed to the store: in their order,
/// each with all its fields but the identifier.
fn projects_without_ids(payload: Vec<Projects>) -> (records: Vec<Projects>)
    ensures
        records@.len() == payload@.len(),
        forall|i: int|
            0 <= i < payload@.len() ==> (#[trigger] records@[i])@ == payload@[i]@.without_id(),
{
    let mut records: Vec<Projects> = Vec::new();
    let mut i: usize = 0;
    while i < payload.len()
        invariant
            i <= payload@.len(),
            records@.len() == i,
            forall|k: int|
                0 <= k < i ==> (#[trigger] records@[k])@ == payload@[k]@.without_id(),
        decreases payload@.len() - i,
    {
        records.push(payload[i].without_id());
        i = i + 1;
    }
    records
}

/// What the endpoint that creates projects does with a payload. An empty
/// payload is a success with nothing inserted, and the store is not asked.
/// Otherwise one bulk insert is issued, of the submitted records in their
/// order, each without an identifier: one that the client sent is dropped,
/// since the store assigns them.
pub fn create_projects_plan(payload: Vec<Projects>) -> (plan: CreatePlan<Projects>)
    ensures
        payload@.len() == 0 ==> (plan matches CreatePlan::Answer(response) && response.status
            == StatusCode::Created && response.body.inserted_ids@.len() == 0),
        payload@.len() > 0 ==> (plan matches CreatePlan::Issue(insert) && insert.collection@
            == PROJECTS@ && insert.records@.len() == payload@.len() && forall|i: int|
            0 <= i < payload@.len() ==> (#[trigger] insert.records@[i])@
                == payload@[i]@.without_id()),
{
    if payload.len() == 0 {
        CreatePlan::Answer(
            Response {
                status: Endpoint::CreateProjects.success_status(),
                body: InsertManyResult::empty(),
            },
        )
    } else {
        CreatePlan::Issue(
            InsertMany { collection: PROJECTS.to_owned(), records: projects_without_ids(payload) },
        )
    }
}

/// The answer of the endpoint that creates projects to the outcome of its
/// insert: 201 with the store's acknowledgment, or the classification of the
/// failure.
pub fn create_projects_response(outcome: Result<InsertManyResult, StoreError>) -> (out: (
    Option<String>,
    Result<Response<InsertManyResult>, ErrorResponse>,
))
    ensures
        logs(outcome, out.0),
        answers(outcome, StatusCode::Created, out.1),
{
    respond_logged(Endpoint::CreateProjects.success_status(), outcome)
}

/// The operation of the update endpoint: in every project that the fixed
/// filter selects, the selecting field is set to `UPDATED_VALUE`.
pub fn update_projects_request() -> (update: UpdateMany)
    ensures
        update.collection@ == PROJECTS@,
        update.filter.field@ == SELECT_FIELD@,
        update.filter.value@ == SELECT_VALUE@,
        update.update.field@ == SELECT_FIELD@,
        update.update.value@ == UPDATED_VALUE@,
{
    UpdateMany {
        collection: PROJECTS.to_owned(),
        filter: project_filter(),
        update: Update { field: SELECT_FIELD.to_owned(), value: UPDATED_VALUE.to_owned() },
    }
}

/// The answer of the update endpoint: 200 with the store's counts, or the
/// classification of the failure. That no record matched is no failure.
pub fn update_projects_response(outcome: Result<UpdateResult, StoreError>) -> (out: (
    Option<String>,
    Result<Response<UpdateResult>, ErrorResponse>,
))
    ensures
        logs(outcome, out.0),
        answers(outcome, StatusCode::Okay, out.1),
{
    respond_logged(Endpoint::UpdateProjects.success_status(), outcome)
}

/// The operation of the delete endpoint: every project that the fixed filter
/// selects is removed.
pub fn delete_projects_request() -> (delete: DeleteMany)
    ensures
        delete.collection@ == PROJECTS@,
        delete.filter.field@ == SELECT_FIELD@,
        delete.filter.value@ == SELECT_VALUE@,
{
    DeleteMany { collection: PROJECTS.to_owned(), filter: project_filter() }
}

/// The answer of the delete endpoint: 201 with the store's count, or the
/// classification of the failure. That no record matched is no failure.
pub fn delete_projects_response(outcome: Result<DeleteResult, StoreError>) -> (out: (
    Option<String>,
    Result<Response<DeleteResult>, ErrorResponse>,
))
    ensures
        logs(outcome, out.0),
        answers(outcome, StatusCode::Created, out.1),
{
    respond_logged(Endpoint::DeleteProjects.success_status(), outcome)
}

/// The submitted users as they are handed to the store: in their order, each
/// with all its fields but the identifier.
fn users_without_ids(payload: Vec<Users>) -> (records: Vec<Users>)
    ensures
        records@.len() == payload@.len(),
        forall|i: int|
            0 <= i < payload@.len() ==> (#[trigger] records@[i])@ == payload@[i]@.without_id(),
{
    let mut records: Vec<Users> = Vec::new();
    let mut i: usize = 0;
    while i < payload.len()
        invariant
            i <= payload@.len(),
            records@.len() == i,
            forall|k: int|
                0 <= k < i ==> (#[trigger] records@[k])@ == payload@[k]@.without_id(),
        decreases payload@.len() - i,
    {
        records.push(payload[i].without_id());
        i = i + 1;
    }
    records
}

/// What the endpoint that creates users does with a payload. An empty
/// payload is a success with nothing inserted, and the store is not asked.
/// Otherwise one bulk insert is issued, of the submitted records in their
/// order, each without an identifier.
pub fn create_users_plan(payload: Vec<Users>) -> (plan: CreatePlan<Users>)
    ensures
        payload@.len() == 0 ==> (plan matches CreatePlan::Answer(response) && response.status
            == StatusCode::Created && response.body.inserted_ids@.len() == 0),
        payload@.len() > 0 ==> (plan matches CreatePlan::Issue(insert) && insert.collection@
            == USERS@ && insert.records@.len() == payload@.len() && forall|i: int|
            0 <= i < payload@.len() ==> (#[trigger] insert.records@[i])@
                == payload@[i]@.without_id()),
{
    if payload.len() == 0 {
        CreatePlan::Answer(
            Response {
                status: Endpoint::CreateUsers.success_status(),
                body: InsertManyResult::empty(),
            },
        )
    } else {
        CreatePlan::Issue(
            InsertMany { collection: USERS.to_owned(), records: users_without_ids(payload) },
        )
    }
}

/// The answer of the endpoint that creates users to the outcome of its
/// insert: 201 with the store's acknowledgment, or the classification of the
/// failure.
pub fn create_users_response(outcome: Result<InsertManyResult, StoreError>) -> (out: (
    Option<String>,
    Result<Response<InsertManyResult>, ErrorResponse>,
))
    ensures
        logs(outcome, out.0),
        answers(outcome, StatusCode::Created, out.1),
{
    respond_logged(Endpoint::CreateUsers.success_status(), outcome)
}

/// Where the store acknowledges each of `submitted` records, at its place,
/// with an identifier of its own, a create endpoint answers with a success
/// status, as many identifiers as records were submitted, and no identifier
/// twice. For an empty payload this holds without the store.
pub proof fn acknowledged_insert_is_answered_in_full(
    submitted: nat,
    ack: InsertManyResult,
    answer: Result<Response<InsertManyResult>, ErrorResponse>,
)
    requires
        ack.acknowledges(submitted),
        answers(Ok(ack), StatusCode::Created, answer),
    ensures
        answer matches Ok(response) && response.status.success() && response.body.count()
            == submitted && response.body.distinct(),
{
}

/// What the store acknowledges is answered as a success, with the
/// acknowledgment unchanged: the counts of an update or a delete are those
/// the store gave, and counts of zero, where nothing matched, are no error.
pub proof fn acknowledgment_is_answered_unchanged<T>(
    ack: T,
    status: StatusCode,
    answer: Result<Response<T>, ErrorResponse>,
)
    requires
        status.success(),
        answers(Ok(ack), status, answer),
    ensures
        answer matches Ok(response) && response.status.success() && response.body == ack,
{
}

/// A request that fails at the store is never answered with a success, at
/// any endpoint: the answer is an error of status 400, 401 or 500.
pub proof fn failure_is_answered_as_error<T>(
    e: StoreError,
    status: StatusCode,
    answer: Result<Response<T>, ErrorResponse>,
)
    requires
        answers(Err(e), status, answer),
    ensures
        answer matches Err(response) && !response.status.success() && (response.status.code()
            == 400 || response.status.code() == 401 || response.status.code() == 500),
{
}

/// A stream that delivers `records` and then ends is read as exactly
/// `records`, in their order: nothing is dropped, added or moved.
pub proof fn complete_stream_is_read_whole(records: Seq<Projects>, rest: Seq<CursorEvent>)
    ensures
        collect_all(
            CollectingView::More(Seq::empty()),
            records.map_values(|p: Projects| CursorEvent::Item(p)).push(CursorEvent::End) + rest,
        ) == CollectingView::Finished(Ok(records)),
{
    stream_from(Seq::empty(), records, CursorEvent::End, rest);
    assert(Seq::<Projects>::empty() + records =~= records);
}

/// A stream that breaks after delivering `records` is read as the fault:
/// the records that came before it are not answered as if they were all.
pub proof fn broken_stream_is_a_failure(
    records: Seq<Projects>,
    e: StoreError,
    rest: Seq<CursorEvent>,
)
    ensures
        collect_all(
            CollectingView::More(Seq::empty()),
            records.map_values(|p: Projects| CursorEvent::Item(p)).push(CursorEvent::Fault(e))
                + rest,
        ) == CollectingView::Finished(Err(e)),
{
    stream_from(Seq::empty(), records, CursorEvent::Fault(e), rest);
}

/// Where the store delivers `records` and then ends the stream, the list
/// endpoint answers 200 with exactly `records`, in the order of delivery:
/// each record listed once, with the fields it was delivered with.
pub proof fn delivered_records_are_listed(
    records: Seq<Projects>,
    read: Vec<Projects>,
    answer: Result<Response<Vec<Projects>>, ErrorResponse>,
)
    requires
        collect_all(
            CollectingView::More(Seq::empty()),
            records.map_values(|p: Projects| CursorEvent::Item(p)).push(CursorEvent::End),
        ) == CollectingView::Finished(Ok(read@)),
        answers(Ok(read), StatusCode::Okay, answer),
    ensures
        answer matches Ok(response) && response.status.code() == 200 && response.body@
            == records,
{
    let events = records.map_values(|p: Projects| CursorEvent::Item(p)).push(CursorEvent::End);
    complete_stream_is_read_whole(records, Seq::empty());
    assert(events + Seq::<CursorEvent>::empty() =~= events);
}

/// Reading `records`, then `last`, then `rest`, after `read`, is one step on
/// `last` after `read + records`, if `last` finishes the reading.
proof fn stream_from(
    read: Seq<Projects>,
    records: Seq<Projects>,
    last: CursorEvent,
    rest: Seq<CursorEvent>,
)
    requires
        !(last is Item),
    ensures
        collect_all(
            CollectingView::More(read),
            records.map_values(|p: Projects| CursorEvent::Item(p)).push(last) + rest,
        ) == collect_step(read + records, last),
    decreases records.len(),
{
    let items = records.map_values(|p: Projects| CursorEvent::Item(p));
    let events = items.push(last) + rest;
    if records.len() == 0 {
        assert(read + records =~= read);
        assert(events[0] == last);
        assert(collect_all(collect_step(read, last), events.skip(1)) == collect_step(read, last));
    } else {
        let tail = records.skip(1);
        let tail_items = tail.map_values(|p: Projects| CursorEvent::Item(p));
        assert(events[0] == CursorEvent::Item(records[0]));
        assert(events.skip(1) =~= tail_items.push(last) + rest);
        stream_from(read.push(records[0]), tail, last, rest);
        assert(read.push(records[0]) + tail =~= read + records);
    }
}

} // verus!
