//! The sink: the request that inserts a batch of rows into a table of the
//! warehouse, and what to make of the answer.

use vstd::prelude::*;
use crate::events::{event_views, Event, EventView};
use crate::json::{
    field, is_record, json_document, json_text, lemma_written, lemma_written_first, parse_json,
    push_text, Json, JsonValue,
};
use crate::text::{nth_segment, segment, text_of};
use crate::utils::{retry_step, Attempt, Retry, DEFAULT_LIMIT_MS};

verus! {

/// The class of an HTTP status, by its hundreds.
#[derive(Debug, Clone, Copy, PartialEq, Eq, Structural)]
pub enum StatusClass {
    Informational,
    Success,
    Redirection,
    ClientError,
    ServerError,
    NoClass,
}

/// The class of a status code.
pub open spec fn status_class(code: u16) -> StatusClass {
    if 100 <= code <= 199 {
        StatusClass::Informational
    } else if 200 <= code <= 299 {
        StatusClass::Success
    } else if 300 <= code <= 399 {
        StatusClass::Redirection
    } else if 400 <= code <= 499 {
        StatusClass::ClientError
    } else if 500 <= code <= 599 {
        StatusClass::ServerError
    } else {
        StatusClass::NoClass
    }
}

/// The class of a status code.
pub fn class_of(code: u16) -> (class: StatusClass)
    ensures
        class == status_class(code),
{
    if 100 <= code && code <= 199 {
        StatusClass::Informational
    } else if 200 <= code && code <= 299 {
        StatusClass::Success
    } else if 300 <= code && code <= 399 {
        StatusClass::Redirection
    } else if 400 <= code && code <= 499 {
        StatusClass::ClientError
    } else if 500 <= code && code <= 599 {
        StatusClass::ServerError
    } else {
        StatusClass::NoClass
    }
}

/// A failed attempt to insert a batch.
#[derive(Debug, Clone, PartialEq, Eq)]
pub struct BigQueryError {
    pub message: String,
    pub status: Option<u16>,
    pub body: Option<String>,
    pub retryable: bool,
}

/// The mathematical value of [`BigQueryError`].
pub struct BigQueryErrorView {
    pub message: Seq<char>,
    pub status: Option<u16>,
    pub body: Option<Seq<char>>,
    pub retryable: bool,
}

impl View for BigQueryError {
    type V = BigQueryErrorView;

    open spec fn view(&self) -> BigQueryErrorView {
        BigQueryErrorView {
            message: self.message@,
            status: self.status,
            body: text_of(self.body),
            retryable: self.retryable,
        }
    }
}

impl Default for BigQueryError {
    /// An error without a message, a status or a body, that may pass.
    fn default() -> (r: BigQueryError)
        ensures
            r@ == (BigQueryErrorView {
                message: Seq::empty(),
                status: None,
                body: None,
                retryable: true,
            }),
    {
        BigQueryError { message: String::new(), status: None, body: None, retryable: true }
    }
}

impl BigQueryError {
    /// Whether the failure may pass, so that the attempt is worth making
    /// again.
    pub fn is_retryable(&self) -> (r: bool)
        ensures
            r == self@.retryable,
    {
        self.retryable
    }

    /// How the attempt that failed with this error went.
    pub fn attempt(&self) -> (r: Attempt)
        ensures
            r == attempt_of(Err::<nat, BigQueryErrorView>(self@)),
    {
        if self.retryable {
            Attempt::Transient
        } else {
            Attempt::Permanent
        }
    }

    /// What the error says.
    pub fn description(&self) -> (r: &'static str)
        ensures
            r@ == "an error communicating with BigQuery"@,
    {
        "an error communicating with BigQuery"
    }
}

/// How an attempt went, by its result.
pub open spec fn attempt_of(result: Result<nat, BigQueryErrorView>) -> Attempt {
    match result {
        Ok(_) => Attempt::Succeeded,
        Err(e) => if e.retryable {
            Attempt::Transient
        } else {
            Attempt::Permanent
        },
    }
}

/// What kept a request from being answered.
#[derive(Debug, Clone, Copy, PartialEq, Eq, Structural)]
pub enum TransportFault {
    Method,
    Version,
    Status,
    Header,
    Uri,
    Utf8,
    TooLarge,
    Io,
    Ssl,
    Other,
}

/// Whether a fault of the transport may pass: a fault of the network may,
/// a request or an answer that is malformed will not.
pub open spec fn fault_may_pass(fault: TransportFault) -> bool {
    fault == TransportFault::Io || fault == TransportFault::Ssl || fault == TransportFault::Other
}

/// What the error of a fault says, given the words of the transport.
pub open spec fn fault_message(fault: TransportFault, detail: Seq<char>) -> Seq<char> {
    match fault {
        TransportFault::Method | TransportFault::Version | TransportFault::Status
        | TransportFault::Header => "invalid "@ + detail,
        TransportFault::Uri => "invalid uri: "@ + detail,
        TransportFault::Utf8 => "invalid data: "@ + detail,
        TransportFault::TooLarge => "response size too large"@,
        TransportFault::Io => "i/o error occured: "@ + detail,
        TransportFault::Ssl => "ssl error occured: "@ + detail,
        TransportFault::Other => "unknown error"@,
    }
}

/// A literal followed by a text.
fn join(head: &str, tail: &str) -> (r: String)
    ensures
        r@ == head@ + tail@,
{
    let mut out = String::new();
    out.append(head);
    out.append(tail);
    assert(out@ =~= head@ + tail@);
    out
}

/// The error of a request that the transport could not bring to an answer.
pub fn transport_error(fault: TransportFault, detail: &str) -> (e: BigQueryError)
    ensures
        e@ == (BigQueryErrorView {
            message: fault_message(fault, detail@),
            status: None,
            body: None,
            retryable: fault_may_pass(fault),
        }),
{
    let message = match fault {
        TransportFault::Method => join("invalid ", detail),
        TransportFault::Version => join("invalid ", detail),
        TransportFault::Status => join("invalid ", detail),
        TransportFault::Header => join("invalid ", detail),
        TransportFault::Uri => join("invalid uri: ", detail),
        TransportFault::Utf8 => join("invalid data: ", detail),
        TransportFault::TooLarge => "response size too large".to_owned(),
        TransportFault::Io => join("i/o error occured: ", detail),
        TransportFault::Ssl => join("ssl error occured: ", detail),
        TransportFault::Other => "unknown error".to_owned(),
    };
    let retryable = match fault {
        TransportFault::Io => true,
        TransportFault::Ssl => true,
        TransportFault::Other => true,
        _ => false,
    };
    BigQueryError { message, status: None, body: None, retryable }
}

/// The error of a request for which no token could be had; it may pass.
pub fn token_error(detail: &str) -> (e: BigQueryError)
    ensures
        e@ == (BigQueryErrorView {
            message: "error fetching token: "@ + detail@,
            status: None,
            body: None,
            retryable: true,
        }),
{
    BigQueryError {
        message: join("error fetching token: ", detail),
        status: None,
        body: None,
        retryable: true,
    }
}

/// A required text: the string that the field holds; `None` for anything
/// else, and for a field that is missing.
pub open spec fn required_text(v: Option<JsonValue>) -> Option<Seq<char>> {
    match v {
        Some(JsonValue::Text(s)) => Some(s),
        _ => None,
    }
}

/// Whether `v` is one reason for which a row was refused: a record of the
/// texts `reason`, `location`, `debugInfo` and `message`.
pub open spec fn is_error_info(v: JsonValue) -> bool {
    is_record(v, 4) && required_text(field(v, "reason"@, 0, 4)) is Some && required_text(
        field(v, "location"@, 1, 4),
    ) is Some && required_text(field(v, "debugInfo"@, 2, 4)) is Some && required_text(
        field(v, "message"@, 3, 4),
    ) is Some
}

/// Whether a field holds the index of a row: a whole number below 65536.
pub open spec fn is_row_index(v: Option<JsonValue>) -> bool {
    match v {
        Some(JsonValue::Number(Some(n))) => n <= 65535,
        _ => false,
    }
}

/// Whether every element of `infos` is a reason for which a row was
/// refused.
pub open spec fn all_error_infos(infos: Seq<JsonValue>) -> bool {
    forall|i: int| 0 <= i < infos.len() ==> is_error_info(#[trigger] infos[i])
}

/// Whether `v` is the report of one row that was refused: a record of
/// `index`, the index of a row, and `errors`, an array of reasons.
pub open spec fn is_insert_error(v: JsonValue) -> bool {
    is_record(v, 2) && is_row_index(field(v, "index"@, 0, 2)) && match field(v, "errors"@, 1, 2) {
        Some(JsonValue::Array(infos)) => all_error_infos(infos),
        _ => false,
    }
}

/// Whether every element of `reports` is the report of a row that was
/// refused.
pub open spec fn all_insert_errors(reports: Seq<JsonValue>) -> bool {
    forall|i: int| 0 <= i < reports.len() ==> is_insert_error(#[trigger] reports[i])
}

/// The number of rows that an answer reports as refused, where the document
/// is an answer: a record of `kind`, a text, and `insertErrors`, which is
/// absent, `null` or an array of reports.
pub open spec fn insert_errors_of(document: JsonValue) -> Option<nat> {
    if is_record(document, 2) && required_text(field(document, "kind"@, 0, 2)) is Some {
        match field(document, "insertErrors"@, 1, 2) {
            None => Some(0),
            Some(JsonValue::Null) => Some(0),
            Some(JsonValue::Array(reports)) => if all_insert_errors(reports) {
                Some(reports.len())
            } else {
                None
            },
            Some(_) => None,
        }
    } else {
        None
    }
}

/// Whether a field holds a text.
fn holds_text(v: Option<&Json>) -> (r: bool)
    ensures
        r == required_text(crate::ua::details::value_at(v)) is Some,
{
    match v {
        Some(Json::Text(_)) => true,
        _ => false,
    }
}

/// Whether `v` is one reason for which a row was refused.
fn check_error_info(v: &Json) -> (r: bool)
    ensures
        r == is_error_info(v@),
{
    v.is_record(4) && holds_text(v.field("reason", 0, 4)) && holds_text(v.field("location", 1, 4))
        && holds_text(v.field("debugInfo", 2, 4)) && holds_text(v.field("message", 3, 4))
}

/// Whether `v` is the report of one row that was refused.
fn check_insert_error(v: &Json) -> (r: bool)
    ensures
        r == is_insert_error(v@),
{
    if !v.is_record(2) {
        return false;
    }
    match v.field("index", 0, 2) {
        Some(Json::Number(Some(n))) => {
            if *n > 65535 {
                return false;
            }
        },
        _ => {
            return false;
        },
    }
    match v.field("errors", 1, 2) {
        Some(Json::Array(infos)) => {
            let ghost all = field(v@, "errors"@, 1, 2)->0->Array_0;
            let mut i: usize = 0;
            while i < infos.len()
                invariant
                    i <= infos@.len(),
                    is_record(v@, 2),
                    is_row_index(field(v@, "index"@, 0, 2)),
                    field(v@, "errors"@, 1, 2) == Some(JsonValue::Array(all)),
                    all.len() == infos@.len(),
                    forall|j: int| 0 <= j < infos@.len() ==> all[j] == infos@[j]@,
                    forall|j: int| 0 <= j < i ==> is_error_info(#[trigger] all[j]),
                decreases infos@.len() - i,
            {
                if !check_error_info(&infos[i]) {
                    assert(!is_error_info(all[i as int]));
                    assert(!all_error_infos(all));
                    return false;
                }
                i += 1;
            }
            assert(all_error_infos(all));
            true
        },
        _ => false,
    }
}

/// The number of rows that an answer reports as refused; `None` where the
/// document is no answer.
pub fn count_insert_errors(document: &Json) -> (r: Option<usize>)
    ensures
        match r {
            Some(n) => insert_errors_of(document@) == Some(n as nat),
            None => insert_errors_of(document@) is None,
        },
{
    if !document.is_record(2) || !holds_text(document.field("kind", 0, 2)) {
        return None;
    }
    match document.field("insertErrors", 1, 2) {
        None => Some(0),
        Some(Json::Null) => Some(0),
        Some(Json::Array(reports)) => {
            let ghost all = field(document@, "insertErrors"@, 1, 2)->0->Array_0;
            let mut i: usize = 0;
            while i < reports.len()
                invariant
                    i <= reports@.len(),
                    is_record(document@, 2),
                    required_text(field(document@, "kind"@, 0, 2)) is Some,
                    field(document@, "insertErrors"@, 1, 2) == Some(JsonValue::Array(all)),
                    all.len() == reports@.len(),
                    forall|j: int| 0 <= j < reports@.len() ==> all[j] == reports@[j]@,
                    forall|j: int| 0 <= j < i ==> is_insert_error(#[trigger] all[j]),
                decreases reports@.len() - i,
            {
                if !check_insert_error(&reports[i]) {
                    assert(!is_insert_error(all[i as int]));
                    assert(!all_insert_errors(all));
                    return None;
                }
                i += 1;
            }
            assert(all_insert_errors(all));
            Some(reports.len())
        },
        Some(_) => None,
    }
}

/// What the error of an answer says, by the class of its status.
pub open spec fn class_message(class: StatusClass) -> Seq<char> {
    match class {
        StatusClass::Informational => "unexpected 1xx response"@,
        StatusClass::Success => "invalid json response"@,
        StatusClass::Redirection => "unexpected redirect"@,
        StatusClass::ClientError => "client error"@,
        StatusClass::ServerError => "server error"@,
        StatusClass::NoClass => "unknown status code"@,
    }
}

/// What to make of a document that came with a status of success: the
/// number of rows that it reports as refused, or an error that may pass
/// where it is no answer.
pub open spec fn answer_outcome(status: u16, body: Seq<char>, document: Option<JsonValue>) -> Result<
    nat,
    BigQueryErrorView,
> {
    match document {
        Some(d) if insert_errors_of(d) is Some => Ok(insert_errors_of(d)->0),
        _ => Err(
            BigQueryErrorView {
                message: "invalid json response"@,
                status: Some(status),
                body: Some(body),
                retryable: true,
            },
        ),
    }
}

/// What to make of an answer, by its status and its body, where the body
/// could be read.
///
/// A status of success with a body that is an answer is a success, and
/// gives the number of rows that the answer reports as refused: they do
/// not make the batch fail. A status of success with no such body, and a
/// status of the server's fault, are failures that may pass. Every other
/// status is a failure that will not.
pub open spec fn response_outcome(status: u16, body: Option<Seq<char>>) -> Result<
    nat,
    BigQueryErrorView,
> {
    match status_class(status) {
        StatusClass::Success => match body {
            Some(text) => answer_outcome(status, text, json_document(text)),
            None => Err(
                BigQueryErrorView {
                    message: "invalid response body"@,
                    status: Some(status),
                    body: None,
                    retryable: true,
                },
            ),
        },
        class => Err(
            BigQueryErrorView {
                message: class_message(class),
                status: Some(status),
                body,
                retryable: class == StatusClass::ServerError,
            },
        ),
    }
}

/// The value of the result of an attempt.
pub open spec fn result_view(r: Result<usize, BigQueryError>) -> Result<nat, BigQueryErrorView> {
    match r {
        Ok(n) => Ok(n as nat),
        Err(e) => Err(e@),
    }
}

/// What to make of a document that came with a status of success.
pub fn read_answer(status: u16, body: String, document: Option<Json>) -> (r: Result<
    usize,
    BigQueryError,
>)
    ensures
        result_view(r) == answer_outcome(status, body@, crate::json::json_view(document)),
{
    let counted = match &document {
        Some(d) => count_insert_errors(d),
        None => None,
    };
    match counted {
        Some(n) => Ok(n),
        None => Err(
            BigQueryError {
                message: "invalid json response".to_owned(),
                status: Some(status),
                body: Some(body),
                retryable: true,
            },
        ),
    }
}

/// What to make of an answer, by its status and its body; `None` for a
/// body that could not be read.
pub fn read_response(status: u16, body: Option<String>) -> (r: Result<usize, BigQueryError>)
    ensures
        result_view(r) == response_outcome(status, text_of(body)),
{
    let class = class_of(status);
    match class {
        StatusClass::Success => match body {
            Some(text) => {
                let document = parse_json(text.as_str());
                read_answer(status, text, document)
            },
            None => Err(
                BigQueryError {
                    message: "invalid response body".to_owned(),
                    status: Some(status),
                    body: None,
                    retryable: true,
                },
            ),
        },
        StatusClass::Informational => Err(
            BigQueryError {
                message: "unexpected 1xx response".to_owned(),
                status: Some(status),
                body,
                retryable: false,
            },
        ),
        StatusClass::Redirection => Err(
            BigQueryError {
                message: "unexpected redirect".to_owned(),
                status: Some(status),
                body,
                retryable: false,
            },
        ),
        StatusClass::ClientError => Err(
            BigQueryError {
                message: "client error".to_owned(),
                status: Some(status),
                body,
                retryable: false,
            },
        ),
        StatusClass::ServerError => Err(
            BigQueryError {
                message: "server error".to_owned(),
                status: Some(status),
                body,
                retryable: true,
            },
        ),
        StatusClass::NoClass => Err(
            BigQueryError {
                message: "unknown status code".to_owned(),
                status: Some(status),
                body,
                retryable: false,
            },
        ),
    }
}

/// What to do after an attempt that ended `elapsed_ms` after the first one
/// began, with a limit of 60 seconds.
pub fn next_step(result: &Result<usize, BigQueryError>, elapsed_ms: u64) -> (r: Retry)
    ensures
        r == retry_step(attempt_of(result_view(*result)), elapsed_ms, DEFAULT_LIMIT_MS),
{
    let attempt = match result {
        Ok(_) => Attempt::Succeeded,
        Err(e) => e.attempt(),
    };
    crate::utils::retry(attempt, elapsed_ms)
}

/// An answer with a status of the server's fault, and one with a status of
/// success whose body is no answer, are tried again as long as no more
/// than 60 seconds have gone by since the first attempt began. An answer
/// with a status of the client's fault is never tried again.
pub proof fn lemma_retry_classification(status: u16, body: Option<Seq<char>>, elapsed_ms: u64)
    ensures
        500 <= status <= 599 && elapsed_ms <= DEFAULT_LIMIT_MS ==> retry_step(
            attempt_of(response_outcome(status, body)),
            elapsed_ms,
            DEFAULT_LIMIT_MS,
        ) == Retry::Again,
        400 <= status <= 499 ==> retry_step(
            attempt_of(response_outcome(status, body)),
            elapsed_ms,
            DEFAULT_LIMIT_MS,
        ) == Retry::GiveUp,
        200 <= status <= 299 && (body is None || json_document(body->0) is None
            || insert_errors_of(json_document(body->0)->0) is None) && elapsed_ms
            <= DEFAULT_LIMIT_MS ==> retry_step(
            attempt_of(response_outcome(status, body)),
            elapsed_ms,
            DEFAULT_LIMIT_MS,
        ) == Retry::Again,
        200 <= status <= 299 && body is Some && json_document(body->0) is Some
            && insert_errors_of(json_document(body->0)->0) is Some ==> retry_step(
            attempt_of(response_outcome(status, body)),
            elapsed_ms,
            DEFAULT_LIMIT_MS,
        ) == Retry::Done,
{
}

/// The three parts of the name of a table, written `project.dataset.table`:
/// `None` where the dots cut the name into fewer or more parts than three.
pub open spec fn table_of(name: Seq<char>) -> Option<(Seq<char>, Seq<char>, Seq<char>)> {
    if segment(name, '.', 2) is Some && segment(name, '.', 3) is None {
        Some((segment(name, '.', 0)->0, segment(name, '.', 1)->0, segment(name, '.', 2)->0))
    } else {
        None
    }
}

/// The path of the request that inserts rows into a table.
pub open spec fn insert_path_of(table: (Seq<char>, Seq<char>, Seq<char>)) -> Seq<char> {
    "projects/"@ + table.0 + "/datasets/"@ + table.1 + "/tables/"@ + table.2 + "/insertAll"@
}

/// A table of the warehouse.
#[derive(Debug, Clone, PartialEq, Eq)]
pub struct BigQueryTable {
    pub project: String,
    pub dataset: String,
    pub table: String,
}

impl View for BigQueryTable {
    type V = (Seq<char>, Seq<char>, Seq<char>);

    open spec fn view(&self) -> (Seq<char>, Seq<char>, Seq<char>) {
        (self.project@, self.dataset@, self.table@)
    }
}

impl BigQueryTable {
    /// The table named `project.dataset.table`.
    pub fn parse(name: &str) -> (r: Option<BigQueryTable>)
        ensures
            match r {
                Some(table) => table_of(name@) == Some(table@),
                None => table_of(name@) is None,
            },
    {
        let project = nth_segment(name, '.', 0);
        let dataset = nth_segment(name, '.', 1);
        let table = nth_segment(name, '.', 2);
        let more = nth_segment(name, '.', 3);
        match (project, dataset, table, more) {
            (Some(project), Some(dataset), Some(table), None) => Some(
                BigQueryTable { project, dataset, table },
            ),
            _ => None,
        }
    }

    /// The path of the request that inserts rows into this table.
    pub fn insert_path(&self) -> (r: String)
        ensures
            r@ == insert_path_of(self@),
    {
        let mut out = String::new();
        out.append("projects/");
        out.append(self.project.as_str());
        out.append("/datasets/");
        out.append(self.dataset.as_str());
        out.append("/tables/");
        out.append(self.table.as_str());
        out.append("/insertAll");
        assert(out@ =~= insert_path_of(self@));
        out
    }
}

/// One row of a request: the event as JSON, under the key by which the
/// warehouse tells a row that is sent again from a new one.
#[derive(Debug, Clone, PartialEq, Eq)]
pub struct Row {
    pub insert_id: String,
    pub json: String,
}

/// The mathematical value of [`Row`].
pub struct RowView {
    pub insert_id: Seq<char>,
    pub json: Seq<char>,
}

impl View for Row {
    type V = RowView;

    open spec fn view(&self) -> RowView {
        RowView { insert_id: self.insert_id@, json: self.json@ }
    }
}

/// The values of a list of rows.
pub open spec fn row_views(rows: Seq<Row>) -> Seq<RowView> {
    rows.map_values(|r: Row| r@)
}

/// The JSON of the events that have one, in their order.
pub open spec fn rendered(events: Seq<EventView>) -> Seq<Seq<char>>
    decreases events.len(),
{
    if events.len() == 0 {
        Seq::empty()
    } else {
        match events.last().json() {
            Some(text) => rendered(events.drop_last()).push(text),
            None => rendered(events.drop_last()),
        }
    }
}

/// One row as the request writes it.
pub open spec fn row_json(row: RowView) -> Seq<char> {
    "{\"insertId\":"@ + json_text(row.insert_id) + ",\"json\":"@ + row.json + "}"@
}

/// The rows as the request writes them, with commas between them.
pub open spec fn rows_json(rows: Seq<RowView>) -> Seq<char>
    decreases rows.len(),
{
    if rows.len() == 0 {
        Seq::empty()
    } else if rows.len() == 1 {
        row_json(rows.last())
    } else {
        rows_json(rows.drop_last()) + ","@ + row_json(rows.last())
    }
}

/// The body of the request that inserts `rows`: rows that the warehouse
/// finds invalid are passed over, and so are values that it does not know.
pub open spec fn insert_body(rows: Seq<RowView>) -> Seq<char> {
    "{\"kind\":\"bigquery#tableDataInsertAllRequest\",\"skipInvalidRows\":true,\"ignoreUnknownValues\":true,\"rows\":["@
        + rows_json(rows) + "]}"@
}

/// Believed of `uuid::Uuid::new_v4`, written as text: nothing. The text is
/// drawn at random.
#[verifier::external_body]
fn fresh_insert_id() -> (id: String) {
    uuid::Uuid::new_v4().to_string()
}

/// Appends one row as the request writes it.
fn push_row(out: &mut String, row: &Row)
    ensures
        final(out)@ == old(out)@ + row_json(row@),
{
    let ghost start = out@;
    let ghost id = json_text(row.insert_id@);
    out.append("{\"insertId\":");
    push_text(out, row.insert_id.as_str());
    proof {
        lemma_written_first(start, "{\"insertId\":"@, id);
    }
    out.append(",\"json\":");
    out.append(row.json.as_str());
    proof {
        lemma_written(start, "{\"insertId\":"@ + id, ",\"json\":"@, row.json@);
    }
    out.append("}");
    proof {
        lemma_written_first(start, "{\"insertId\":"@ + id + ",\"json\":"@ + row.json@, "}"@);
    }
}

/// The texts that a list of rows carries.
pub open spec fn row_texts(rows: Seq<RowView>) -> Seq<Seq<char>> {
    rows.map_values(|r: RowView| r.json)
}

/// The rows of a batch: one for each event that has a JSON, in the order of
/// the events, each under a key of its own that is drawn once.
pub fn prepare_rows(events: &Vec<Event>) -> (rows: Vec<Row>)
    ensures
        row_texts(row_views(rows@)) == rendered(event_views(events@)),
{
    let mut rows: Vec<Row> = Vec::new();
    let ghost all = event_views(events@);
    let mut i: usize = 0;
    assert(all.take(0) =~= Seq::empty());
    assert(row_texts(row_views(rows@)) =~= Seq::empty());
    while i < events.len()
        invariant
            i <= events@.len(),
            all == event_views(events@),
            row_texts(row_views(rows@)) == rendered(all.take(i as int)),
        decreases events@.len() - i,
    {
        let ghost before = row_texts(row_views(rows@));
        assert(all.take(i + 1).drop_last() =~= all.take(i as int));
        assert(all.take(i + 1).last() == events@[i as int]@);
        match events[i].to_json() {
            Some(json) => {
                rows.push(Row { insert_id: fresh_insert_id(), json });
                assert(row_texts(row_views(rows@)) =~= before.push(json@));
            },
            None => {},
        }
        i += 1;
    }
    assert(all.take(events@.len() as int) =~= all);
    rows
}

/// The body of the request that inserts `rows`.
pub fn request_body(rows: &Vec<Row>) -> (r: String)
    ensures
        r@ == insert_body(row_views(rows@)),
{
    let ghost all = row_views(rows@);
    let mut out = String::new();
    out.append(
        "{\"kind\":\"bigquery#tableDataInsertAllRequest\",\"skipInvalidRows\":true,\"ignoreUnknownValues\":true,\"rows\":[",
    );
    let ghost head = out@;
    let mut i: usize = 0;
    assert(all.take(0) =~= Seq::empty());
    assert(head + Seq::<char>::empty() =~= head);
    while i < rows.len()
        invariant
            i <= rows@.len(),
            all == row_views(rows@),
            out@ == head + rows_json(all.take(i as int)),
        decreases rows@.len() - i,
    {
        let ghost done = rows_json(all.take(i as int));
        assert(all.take(i + 1).drop_last() =~= all.take(i as int));
        assert(all.take(i + 1).last() == rows@[i as int]@);
        if i > 0 {
            out.append(",");
        }
        push_row(&mut out, &rows[i]);
        proof {
            let last = row_json(rows@[i as int]@);
            if i > 0 {
                lemma_written(head, done, ","@, last);
            } else {
                assert(head + done =~= head);
            }
        }
        i += 1;
    }
    assert(all.take(rows@.len() as int) =~= all);
    out.append("]}");
    proof {
        lemma_written_first(head, rows_json(all), "]}"@);
        assert(head =~= "{\"kind\":\"bigquery#tableDataInsertAllRequest\",\"skipInvalidRows\":true,\"ignoreUnknownValues\":true,\"rows\":["@);
    }
    out
}

/// A request that is ready to be sent.
#[derive(Debug, Clone, PartialEq, Eq)]
pub struct InsertRequest {
    pub path: String,
    pub body: String,
    pub rows: Vec<Row>,
}

/// The sink: a table of the warehouse into which batches are inserted.
#[derive(Debug, Clone, PartialEq, Eq)]
pub struct BigQuery {
    table: BigQueryTable,
}

impl BigQuery {
    /// The table of this sink.
    pub closed spec fn table(&self) -> (Seq<char>, Seq<char>, Seq<char>) {
        self.table@
    }

    /// The sink for the table named `project.dataset.table`, or, for a name
    /// of another form, the words that say so.
    pub fn new(table: &str) -> (r: Result<BigQuery, String>)
        ensures
            match r {
                Ok(sink) => table_of(table@) == Some(sink.table()),
                Err(message) => table_of(table@) is None && message@ == "Could not parse: "@
                    + table@,
            },
    {
        match BigQueryTable::parse(table) {
            Some(table) => Ok(BigQuery { table }),
            None => Err(join("Could not parse: ", table)),
        }
    }

    /// The path of the request that inserts rows into the table.
    pub fn insert_path(&self) -> (r: String)
        ensures
            r@ == insert_path_of(self.table()),
    {
        self.table.insert_path()
    }

    /// The request that inserts a batch of events: one row for each event
    /// that has a JSON, in the order of the batch, each under a key that
    /// is drawn here, once, and stays with the request however often it is
    /// sent.
    pub fn insert(&self, events: &Vec<Event>) -> (request: InsertRequest)
        ensures
            request.path@ == insert_path_of(self.table()),
            row_texts(row_views(request.rows@)) == rendered(event_views(events@)),
            request.body@ == insert_body(row_views(request.rows@)),
    {
        let rows = prepare_rows(events);
        let body = request_body(&rows);
        InsertRequest { path: self.insert_path(), body, rows }
    }
}

} // verus!
