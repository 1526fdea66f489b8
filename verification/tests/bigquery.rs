use linehaul::bigquery::{
    class_of, count_insert_errors, next_step, prepare_rows, read_answer, read_response,
    request_body, token_error, transport_error, BigQuery, BigQueryError, BigQueryTable, Row,
    StatusClass, TransportFault,
};
use linehaul::events::{parse, Event};
use linehaul::json::Json;
use linehaul::ua::UserAgentParser;
use linehaul::utils::{retry, retry_for, Attempt, Retry, DEFAULT_LIMIT_MS};

fn event(project: &str) -> Event {
    let payload =
        format!("3@simple|Mon, 03 May 2021 12:00:00 GMT|US|/simple/{}/|-|-|pex/1.0", project);
    parse(&UserAgentParser::new().unwrap(), &payload).unwrap().unwrap()
}

fn event_json(project: &str) -> String {
    [
        r#"{"timestamp":"2021-05-03T12:00:00Z","url":"/simple/"#,
        project,
        r#"/","project":""#,
        project,
        r#"","tls_protocol":null,"tls_cipher":null,"country_code":"US","#,
        r#""details":{"installer":{"name":"pex","version":"1.0"},"python":null,"#,
        r#""implementation":null,"distro":null,"system":null,"cpu":null,"#,
        r#""openssl_version":null,"setuptools_version":null}}"#,
    ]
    .concat()
}

#[test]
fn status_classes() {
    assert_eq!(class_of(0), StatusClass::NoClass);
    assert_eq!(class_of(99), StatusClass::NoClass);
    assert_eq!(class_of(100), StatusClass::Informational);
    assert_eq!(class_of(199), StatusClass::Informational);
    assert_eq!(class_of(200), StatusClass::Success);
    assert_eq!(class_of(299), StatusClass::Success);
    assert_eq!(class_of(300), StatusClass::Redirection);
    assert_eq!(class_of(399), StatusClass::Redirection);
    assert_eq!(class_of(400), StatusClass::ClientError);
    assert_eq!(class_of(499), StatusClass::ClientError);
    assert_eq!(class_of(500), StatusClass::ServerError);
    assert_eq!(class_of(599), StatusClass::ServerError);
    assert_eq!(class_of(600), StatusClass::NoClass);
    assert_eq!(class_of(65535), StatusClass::NoClass);
}

#[test]
fn server_error_is_tried_again() {
    let r = read_response(500, Some("oops".to_string()));
    let e = r.clone().unwrap_err();
    assert_eq!(e.message, "server error");
    assert_eq!(e.status, Some(500));
    assert_eq!(e.body, Some("oops".to_string()));
    assert!(e.is_retryable());
    assert_eq!(e.attempt(), Attempt::Transient);
    assert_eq!(next_step(&r, 0), Retry::Again);
    assert_eq!(next_step(&r, 60_000), Retry::Again);
    assert_eq!(next_step(&r, 60_001), Retry::GiveUp);
    assert_eq!(next_step(&read_response(503, None), 1), Retry::Again);
}

#[test]
fn client_error_is_never_tried_again() {
    let r = read_response(400, Some("bad".to_string()));
    let e = r.clone().unwrap_err();
    assert_eq!(e.message, "client error");
    assert_eq!(e.status, Some(400));
    assert_eq!(e.body, Some("bad".to_string()));
    assert!(!e.is_retryable());
    assert_eq!(e.attempt(), Attempt::Permanent);
    assert_eq!(next_step(&r, 0), Retry::GiveUp);
    assert_eq!(next_step(&r, 60_001), Retry::GiveUp);
    assert_eq!(next_step(&read_response(404, None), 0), Retry::GiveUp);
    assert_eq!(next_step(&read_response(499, None), 0), Retry::GiveUp);
}

#[test]
fn success_with_a_body_that_is_no_answer_is_tried_again() {
    for body in ["", "not json", "{", "[]", "{}", r#"{"kind":1}"#, r#"{"insertErrors":[]}"#] {
        let r = read_response(200, Some(body.to_string()));
        let e = r.clone().unwrap_err();
        assert_eq!(e.message, "invalid json response", "{:?}", body);
        assert_eq!(e.status, Some(200));
        assert_eq!(e.body, Some(body.to_string()));
        assert!(e.is_retryable());
        assert_eq!(next_step(&r, 10), Retry::Again);
        assert_eq!(next_step(&r, 70_000), Retry::GiveUp);
    }
    let r = read_response(200, None);
    let e = r.clone().unwrap_err();
    assert_eq!(e.message, "invalid response body");
    assert_eq!(e.body, None);
    assert!(e.is_retryable());
    assert_eq!(next_step(&r, 10), Retry::Again);
}

#[test]
fn success_counts_the_rows_that_were_refused() {
    assert_eq!(read_response(200, Some(r#"{"kind":"k"}"#.to_string())), Ok(0));
    assert_eq!(read_response(200, Some(r#"{"kind":"k","insertErrors":null}"#.to_string())), Ok(0));
    assert_eq!(read_response(204, Some(r#"{"kind":"k","insertErrors":[]}"#.to_string())), Ok(0));
    let body = r#"{"kind":"bigquery#tableDataInsertAllResponse","insertErrors":[
        {"index":0,"errors":[{"reason":"invalid","location":"url","debugInfo":"","message":"m"}]},
        {"index":65535,"errors":[]}],"more":1}"#;
    let r = read_response(200, Some(body.to_string()));
    assert_eq!(r, Ok(2));
    assert_eq!(next_step(&r, 0), Retry::Done);
    assert_eq!(next_step(&r, 100_000), Retry::Done);
}

#[test]
fn answers_of_the_wrong_shape() {
    for body in [
        r#"{"kind":"k","insertErrors":{}}"#,
        r#"{"kind":"k","insertErrors":[1]}"#,
        r#"{"kind":"k","insertErrors":[{"index":0}]}"#,
        r#"{"kind":"k","insertErrors":[{"errors":[]}]}"#,
        r#"{"kind":"k","insertErrors":[{"index":-1,"errors":[]}]}"#,
        r#"{"kind":"k","insertErrors":[{"index":1.5,"errors":[]}]}"#,
        r#"{"kind":"k","insertErrors":[{"index":65536,"errors":[]}]}"#,
        r#"{"kind":"k","insertErrors":[{"index":"0","errors":[]}]}"#,
        r#"{"kind":"k","insertErrors":[{"index":0,"errors":null}]}"#,
        r#"{"kind":"k","insertErrors":[{"index":0,"errors":[{"reason":"r"}]}]}"#,
        r#"{"kind":"k","insertErrors":[{"index":0,"errors":[{"reason":"r","location":"l","debugInfo":null,"message":"m"}]}]}"#,
        r#"{"kind":null}"#,
    ] {
        let e = read_response(200, Some(body.to_string())).unwrap_err();
        assert_eq!(e.message, "invalid json response", "{}", body);
        assert!(e.is_retryable());
    }
}

#[test]
fn counting_in_a_document() {
    let report = Json::Object(vec![
        ("index".to_string(), Json::Number(Some(3))),
        ("errors".to_string(), Json::Array(vec![])),
    ]);
    let doc = Json::Object(vec![
        ("kind".to_string(), Json::Text("k".to_string())),
        ("insertErrors".to_string(), Json::Array(vec![report])),
    ]);
    assert_eq!(count_insert_errors(&doc), Some(1));
    assert_eq!(count_insert_errors(&Json::Null), None);
    assert_eq!(read_answer(200, "b".to_string(), Some(doc)), Ok(1));
    let e = read_answer(201, "b".to_string(), None).unwrap_err();
    assert_eq!((e.message.as_str(), e.status, e.body.as_deref()), ("invalid json response", Some(201), Some("b")));
    assert!(e.is_retryable());
}

#[test]
fn other_statuses_are_never_tried_again() {
    for (status, message) in [
        (100u16, "unexpected 1xx response"),
        (101, "unexpected 1xx response"),
        (301, "unexpected redirect"),
        (304, "unexpected redirect"),
        (0, "unknown status code"),
        (600, "unknown status code"),
        (999, "unknown status code"),
    ] {
        let r = read_response(status, None);
        let e = r.clone().unwrap_err();
        assert_eq!(e.message, message);
        assert_eq!(e.status, Some(status));
        assert!(!e.is_retryable(), "{}", status);
        assert_eq!(next_step(&r, 0), Retry::GiveUp);
    }
}

#[test]
fn faults_of_the_transport() {
    let cases = [
        (TransportFault::Method, "invalid d", false),
        (TransportFault::Version, "invalid d", false),
        (TransportFault::Status, "invalid d", false),
        (TransportFault::Header, "invalid d", false),
        (TransportFault::Uri, "invalid uri: d", false),
        (TransportFault::Utf8, "invalid data: d", false),
        (TransportFault::TooLarge, "response size too large", false),
        (TransportFault::Io, "i/o error occured: d", true),
        (TransportFault::Ssl, "ssl error occured: d", true),
        (TransportFault::Other, "unknown error", true),
    ];
    for (fault, message, retryable) in cases {
        let e = transport_error(fault, "d");
        assert_eq!(e.message, message);
        assert_eq!(e.status, None);
        assert_eq!(e.body, None);
        assert_eq!(e.is_retryable(), retryable);
        let step = if retryable { Retry::Again } else { Retry::GiveUp };
        assert_eq!(next_step(&Err(e), 5), step);
    }
    let e = token_error("no key");
    assert_eq!(e.message, "error fetching token: no key");
    assert!(e.is_retryable());
}

#[test]
fn errors_by_hand() {
    let e = BigQueryError::default();
    assert_eq!((e.message.as_str(), e.status, e.body.clone()), ("", None, None));
    assert!(e.is_retryable());
    let e = BigQueryError {
        message: "m".to_string(),
        status: Some(418),
        body: Some("b".to_string()),
        retryable: false,
    };
    assert_eq!(e.attempt(), Attempt::Permanent);
    assert_eq!((e.message.as_str(), e.status, e.body.as_deref()), ("m", Some(418), Some("b")));
    assert!(!e.is_retryable());
    assert_eq!(e.description(), "an error communicating with BigQuery");
}

#[test]
fn the_rule_of_retry() {
    assert_eq!(DEFAULT_LIMIT_MS, 60_000);
    assert_eq!(retry(Attempt::Succeeded, 0), Retry::Done);
    assert_eq!(retry(Attempt::Succeeded, 99_999), Retry::Done);
    assert_eq!(retry(Attempt::Permanent, 0), Retry::GiveUp);
    assert_eq!(retry(Attempt::Transient, 0), Retry::Again);
    assert_eq!(retry(Attempt::Transient, 59_999), Retry::Again);
    assert_eq!(retry(Attempt::Transient, 60_000), Retry::Again);
    assert_eq!(retry(Attempt::Transient, 60_001), Retry::GiveUp);
    assert_eq!(retry_for(Attempt::Transient, 10, 9), Retry::GiveUp);
    assert_eq!(retry_for(Attempt::Transient, 10, 10), Retry::Again);
    assert_eq!(retry_for(Attempt::Transient, 0, 0), Retry::Again);
    assert_eq!(retry_for(Attempt::Transient, u64::MAX, u64::MAX), Retry::Again);
    assert_eq!(retry_for(Attempt::Permanent, 0, u64::MAX), Retry::GiveUp);
    assert_eq!(retry_for(Attempt::Succeeded, 10, 0), Retry::Done);
}

#[test]
fn names_of_tables() {
    let t = BigQueryTable::parse("proj.data.table").unwrap();
    assert_eq!((t.project.as_str(), t.dataset.as_str(), t.table.as_str()), ("proj", "data", "table"));
    assert_eq!(t.insert_path(), "projects/proj/datasets/data/tables/table/insertAll");
    let t = BigQueryTable::parse("..").unwrap();
    assert_eq!((t.project.as_str(), t.dataset.as_str(), t.table.as_str()), ("", "", ""));
    for name in ["", "a", "a.b", "a.b.c.d", "...", "a.b.c."] {
        assert_eq!(BigQueryTable::parse(name), None, "{:?}", name);
        assert_eq!(BigQuery::new(name), Err(format!("Could not parse: {}", name)));
    }
    let sink = BigQuery::new("the-psf.pypi.simple_requests").unwrap();
    assert_eq!(
        sink.insert_path(),
        "projects/the-psf/datasets/pypi/tables/simple_requests/insertAll"
    );
}

#[test]
fn body_of_a_request() {
    let rows = vec![
        Row { insert_id: "id-1".to_string(), json: "{\"a\":1}".to_string() },
        Row { insert_id: "i\"d".to_string(), json: "null".to_string() },
    ];
    assert_eq!(
        request_body(&rows),
        [
            r#"{"kind":"bigquery#tableDataInsertAllRequest","skipInvalidRows":true,"#,
            r#""ignoreUnknownValues":true,"rows":[{"insertId":"id-1","json":{"a":1}},"#,
            r#"{"insertId":"i\"d","json":null}]}"#
        ]
        .concat()
    );
    assert_eq!(
        request_body(&vec![]),
        [
            r#"{"kind":"bigquery#tableDataInsertAllRequest","skipInvalidRows":true,"#,
            r#""ignoreUnknownValues":true,"rows":[]}"#
        ]
        .concat()
    );
    let one = vec![Row { insert_id: "k".to_string(), json: "7".to_string() }];
    assert_eq!(
        request_body(&one),
        [
            r#"{"kind":"bigquery#tableDataInsertAllRequest","skipInvalidRows":true,"#,
            r#""ignoreUnknownValues":true,"rows":[{"insertId":"k","json":7}]}"#
        ]
        .concat()
    );
}

#[test]
fn rows_carry_the_events_in_order_under_keys_of_their_own() {
    let events = vec![event("a"), event("b"), event("c")];
    let rows = prepare_rows(&events);
    assert_eq!(rows.len(), 3);
    assert_eq!(rows[0].json, event_json("a"));
    assert_eq!(rows[1].json, event_json("b"));
    assert_eq!(rows[2].json, event_json("c"));
    for row in &rows {
        assert_eq!(row.insert_id.len(), 36);
        assert_eq!(row.insert_id.matches('-').count(), 4);
        assert_eq!(row.insert_id.as_bytes()[14], b'4');
    }
    assert_ne!(rows[0].insert_id, rows[1].insert_id);
    assert_ne!(rows[1].insert_id, rows[2].insert_id);
    assert_ne!(rows[0].insert_id, rows[2].insert_id);
    let again = prepare_rows(&events);
    assert_ne!(rows[0].insert_id, again[0].insert_id);
}

#[test]
fn rows_leave_out_events_that_have_no_json() {
    let mut broken = event("b");
    match &mut broken {
        Event::SimpleRequest(r) => r.timestamp.day = 99,
    }
    let rows = prepare_rows(&vec![event("a"), broken, event("c")]);
    assert_eq!(rows.len(), 2);
    assert_eq!(rows[0].json, event_json("a"));
    assert_eq!(rows[1].json, event_json("c"));
}

#[test]
fn request_of_a_batch() {
    let sink = BigQuery::new("p.d.t").unwrap();
    let request = sink.insert(&vec![event("a"), event("b")]);
    assert_eq!(request.path, "projects/p/datasets/d/tables/t/insertAll");
    assert_eq!(request.rows.len(), 2);
    assert_eq!(request.body, request_body(&request.rows));
    let value: serde_json::Value = serde_json::from_str(&request.body).unwrap();
    assert_eq!(value["kind"], "bigquery#tableDataInsertAllRequest");
    assert_eq!(value["skipInvalidRows"], true);
    assert_eq!(value["ignoreUnknownValues"], true);
    assert_eq!(value["rows"].as_array().unwrap().len(), 2);
    assert_eq!(value["rows"][0]["insertId"], request.rows[0].insert_id.as_str());
    assert_eq!(value["rows"][1]["json"]["project"], "b");
    assert_eq!(value["rows"][0]["json"]["details"]["installer"]["name"], "pex");
    let empty = sink.insert(&vec![]);
    assert!(empty.rows.is_empty());
    assert_eq!(empty.body, request_body(&vec![]));
    let once = sink.insert(&vec![event("a")]);
    let twice = sink.insert(&vec![event("a")]);
    assert_eq!(once.rows[0].json, twice.rows[0].json);
    assert_ne!(once.rows[0].insert_id, twice.rows[0].insert_id);
    assert_ne!(once.body, twice.body);
}
