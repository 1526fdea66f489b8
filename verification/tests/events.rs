use linehaul::events::{parse, Event, EventKind, EventParseError, SimpleRequest};
use linehaul::timestamp::Timestamp;
use linehaul::ua::{Implementation, Installer, System, UserAgent, UserAgentParser};

fn text(s: &str) -> Option<String> {
    Some(s.to_string())
}

fn parser() -> UserAgentParser {
    UserAgentParser::new().unwrap()
}

fn request(payload: &str) -> SimpleRequest {
    match parse(&parser(), payload) {
        Ok(Some(Event::SimpleRequest(r))) => r,
        other => panic!("{:?} for {:?}", other, payload),
    }
}

const PAYLOAD: &str = "3@simple|Mon, 03 May 2021 12:00:00 GMT|US|https://pypi.org/simple/foo/|TLSv1.2|ECDHE|pip/21.0 CPython/3.9.0 Linux/5.4";

#[test]
fn simple_request_of_older_pip() {
    let r = request(PAYLOAD);
    assert_eq!(
        r.timestamp,
        Timestamp { year: 2021, month: 5, day: 3, hour: 12, minute: 0, second: 0 }
    );
    assert_eq!(r.country_code, "US");
    assert_eq!(r.url, "https://pypi.org/simple/foo/");
    assert_eq!(r.project, "pypi.org");
    assert_eq!(r.tls_protocol, text("TLSv1.2"));
    assert_eq!(r.tls_cipher, text("ECDHE"));
    assert_eq!(
        r.details,
        UserAgent {
            installer: Some(Installer { name: text("pip"), version: text("21.0") }),
            python: text("3.9.0"),
            implementation: Some(Implementation { name: text("CPython"), version: text("3.9.0") }),
            system: Some(System { name: text("Linux"), release: text("5.4") }),
            ..Default::default()
        }
    );
}

#[test]
fn project_is_the_piece_of_index_two() {
    let r = request("3@simple|Mon, 03 May 2021 12:00:00 GMT|US|/simple/foo/|-|-|curl/7");
    assert_eq!(r.project, "foo");
    let r = request("3@simple|Mon, 03 May 2021 12:00:00 GMT|US|/simple/Foo-Bar|-|-|curl/7");
    assert_eq!(r.project, "Foo-Bar");
    let r = request("3@simple|Mon, 03 May 2021 12:00:00 GMT|US|a/b/|-|-|curl/7");
    assert_eq!(r.project, "");
    let r = request("3@simple|Mon, 03 May 2021 12:00:00 GMT|US|//|-|-|curl/7");
    assert_eq!(r.project, "");
    let r = request("3@simple|Mon, 03 May 2021 12:00:00 GMT|US|a/b/c/d/e|-|-|curl/7");
    assert_eq!(r.project, "c");
}

#[test]
fn url_with_fewer_than_three_pieces_is_malformed() {
    let p = parser();
    for url in ["", "/", "/simple", "simple/foo", "foo"] {
        let payload = format!("3@simple|Mon, 03 May 2021 12:00:00 GMT|US|{}|-|-|curl/7", url);
        assert_eq!(parse(&p, &payload), Err(EventParseError::Error), "{:?}", url);
    }
}

#[test]
fn tls_facts_may_be_absent() {
    let r = request("3@simple|Mon, 03 May 2021 12:00:00 GMT|US|/simple/foo/|-|-|curl/7");
    assert_eq!(r.tls_protocol, None);
    assert_eq!(r.tls_cipher, None);
    let r = request("3@simple|Mon, 03 May 2021 12:00:00 GMT|US|/simple/foo/|TLSv1.3|-|curl/7");
    assert_eq!(r.tls_protocol, text("TLSv1.3"));
    assert_eq!(r.tls_cipher, None);
    let r = request("3@simple|Mon, 03 May 2021 12:00:00 GMT||/simple/foo/||AES-128|curl/7");
    assert_eq!(r.country_code, "");
    assert_eq!(r.tls_protocol, text(""));
    assert_eq!(r.tls_cipher, text("AES-128"));
}

#[test]
fn tls_fact_that_starts_with_a_dash_is_the_dash_alone() {
    assert_eq!(
        parse(&parser(), "3@simple|Mon, 03 May 2021 12:00:00 GMT|US|/simple/foo/|-x|-|curl/7"),
        Err(EventParseError::Error)
    );
}

#[test]
fn user_agent_is_all_the_rest() {
    let r = request("3@simple|Mon, 03 May 2021 12:00:00 GMT|US|/simple/foo/|-|-|a|b curl/7|c|");
    assert_eq!(r.details.installer, Some(Installer { name: text("Browser"), version: None }));
}

#[test]
fn ignored_user_agent_is_no_event_and_no_error() {
    let p = parser();
    let payload = "3@simple|Mon, 03 May 2021 12:00:00 GMT|US|/simple/foo/|-|-|Go-http-client/1.1";
    assert_eq!(parse(&p, payload), Ok(None));
    assert_eq!(Event::from_str(&p, payload), Err(EventParseError::IgnoredUserAgent));
}

#[test]
fn unrecognized_user_agent_is_an_error() {
    let p = parser();
    let payload = "3@simple|Mon, 03 May 2021 12:00:00 GMT|US|/simple/foo/|-|-|nobody knows me";
    assert_eq!(parse(&p, payload), Err(EventParseError::InvalidUserAgent));
    assert_eq!(Event::from_str(&p, payload), Err(EventParseError::InvalidUserAgent));
    let payload = "3@simple|Mon, 03 May 2021 12:00:00 GMT|US|/simple/foo/|-|-|";
    assert_eq!(parse(&p, payload), Err(EventParseError::InvalidUserAgent));
}

#[test]
fn malformed_structure_wins_over_the_user_agent() {
    let p = parser();
    assert_eq!(
        parse(&p, "3@simple|Mon, 03 May 2021 12:00:00 GMT|US|/simple|-|-|Go-http-client/1.1"),
        Err(EventParseError::Error)
    );
    assert_eq!(
        parse(&p, "3@simple|Mon, 03 May 2021 12:00:00 GMT|US|/simple|-|-|nobody knows me"),
        Err(EventParseError::Error)
    );
}

#[test]
fn from_str_gives_the_event() {
    let p = parser();
    let event = Event::from_str(&p, PAYLOAD).unwrap();
    assert_eq!(event.kind(), EventKind::SimpleRequest);
    assert_eq!(Ok(Some(event)), parse(&p, PAYLOAD));
    assert_eq!(Event::from_str(&p, "3@simple"), Err(EventParseError::Error));
}

#[test]
fn malformed_payloads() {
    let p = parser();
    for payload in [
        "",
        "3",
        "3@",
        "2@simple|Mon, 03 May 2021 12:00:00 GMT|US|/simple/foo/|-|-|curl/7",
        "3@other|Mon, 03 May 2021 12:00:00 GMT|US|/simple/foo/|-|-|curl/7",
        "3@simple Mon, 03 May 2021 12:00:00 GMT|US|/simple/foo/|-|-|curl/7",
        "3@simple|Mon, 03 May 2021 12:00:00 GMT",
        "3@simple|Mon, 03 May 2021 12:00:00 GMT|US",
        "3@simple|Mon, 03 May 2021 12:00:00 GMT|US|/simple/foo/",
        "3@simple|Mon, 03 May 2021 12:00:00 GMT|US|/simple/foo/|-",
        "3@simple|Mon, 03 May 2021 12:00:00 GMT|US|/simple/foo/|-|-",
        "3@simple|Mon, 03 May 2021 12:00:00 GMT|US|/simple/foo/|-|",
        " 3@simple|Mon, 03 May 2021 12:00:00 GMT|US|/simple/foo/|-|-|curl/7",
    ] {
        assert_eq!(parse(&p, payload), Err(EventParseError::Error), "{:?}", payload);
    }
}

#[test]
fn malformed_dates() {
    let p = parser();
    for date in [
        "Mon 03 May 2021 12:00:00 GMT",
        "Mon,03 May 2021 12:00:00 GMT",
        "Mon, 3 May 2021 12:00:00 GMT",
        "Mon, 03 may 2021 12:00:00 GMT",
        "Mon, 03 Mai 2021 12:00:00 GMT",
        "mon, 03 May 2021 12:00:00 GMT",
        "Monday, 03 May 2021 12:00:00 GMT",
        "Mon, 03 May 21 12:00:00 GMT",
        "Mon, 03 May 2021 12:00 GMT",
        "Mon, 03 May 2021 12-00-00 GMT",
        "Mon, 03 May 2021 12:00:00 UTC",
        "Mon, 03 May 2021 12:00:00 +0000",
        "Mon, 03 May 2021 12:00:00",
        "Mon, 03 May 2021 12:00:00GMT",
        "Mon, 03 May 2021 12:00:00 gmt",
        "Mon, 03 May2021 12:00:00 GMT",
        "2021-05-03T12:00:00Z",
        "",
    ] {
        let payload = format!("3@simple|{}|US|/simple/foo/|-|-|curl/7", date);
        assert_eq!(parse(&p, &payload), Err(EventParseError::Error), "{:?}", date);
    }
}

#[test]
fn dates_that_name_no_instant_are_malformed() {
    let p = parser();
    for date in [
        "Mon, 31 Feb 2021 12:00:00 GMT",
        "Mon, 29 Feb 2021 12:00:00 GMT",
        "Mon, 00 May 2021 12:00:00 GMT",
        "Mon, 31 Apr 2021 12:00:00 GMT",
        "Mon, 03 May 2021 24:00:00 GMT",
        "Mon, 03 May 2021 12:60:00 GMT",
        "Mon, 03 May 2021 12:00:60 GMT",
    ] {
        let payload = format!("3@simple|{}|US|/simple/foo/|-|-|curl/7", date);
        assert_eq!(parse(&p, &payload), Err(EventParseError::Error), "{:?}", date);
    }
}

#[test]
fn months_by_name() {
    let names =
        ["Jan", "Feb", "Mar", "Apr", "May", "Jun", "Jul", "Aug", "Sep", "Oct", "Nov", "Dec"];
    for (i, name) in names.iter().enumerate() {
        let payload =
            format!("3@simple|Sun, 09 {} 2018 01:02:03 GMT|US|/simple/foo/|-|-|curl/7", name);
        assert_eq!(
            request(&payload).timestamp,
            Timestamp { year: 2018, month: i as u32 + 1, day: 9, hour: 1, minute: 2, second: 3 }
        );
    }
}

#[test]
fn days_of_the_week_are_not_held_against_the_date() {
    for day in ["Mon", "Tue", "Wed", "Thu", "Fri", "Sat", "Sun"] {
        let payload =
            format!("3@simple|{}, 03 May 2021 12:00:00 GMT|US|/simple/foo/|-|-|curl/7", day);
        assert_eq!(request(&payload).timestamp.day, 3);
    }
}

#[test]
fn runs_of_spaces_and_tabs_part_the_date() {
    let r = request("3@simple|Mon,  03\tMay \t2021   12:00:00\t\tGMT|US|/simple/foo/|-|-|curl/7");
    assert_eq!(
        r.timestamp,
        Timestamp { year: 2021, month: 5, day: 3, hour: 12, minute: 0, second: 0 }
    );
}

#[test]
fn request_written_as_json() {
    let r = request(PAYLOAD);
    let expected = [
        r#"{"timestamp":"2021-05-03T12:00:00Z","url":"https://pypi.org/simple/foo/","#,
        r#""project":"pypi.org","tls_protocol":"TLSv1.2","tls_cipher":"ECDHE","#,
        r#""country_code":"US","details":{"installer":{"name":"pip","version":"21.0"},"#,
        r#""python":"3.9.0","implementation":{"name":"CPython","version":"3.9.0"},"#,
        r#""distro":null,"system":{"name":"Linux","release":"5.4"},"cpu":null,"#,
        r#""openssl_version":null,"setuptools_version":null}}"#
    ].concat();
    assert_eq!(r.to_json(), Some(expected.clone()));
    assert_eq!(Event::SimpleRequest(r).to_json(), Some(expected));
}

#[test]
fn json_escapes_what_needs_it() {
    let r = request(
        "3@simple|Mon, 03 May 2021 12:00:00 GMT|U\"S|/simple/f\\o\"o/|-|-|pex/1\u{1}\"é",
    );
    let json = r.to_json().unwrap();
    let expected = [
        r#"{"timestamp":"2021-05-03T12:00:00Z","url":"/simple/f\\o\"o/","#,
        r#""project":"f\\o\"o","tls_protocol":null,"tls_cipher":null,"#,
        r#""country_code":"U\"S","details":{"installer":{"name":"pex","version":"1\u0001\"é"},"#,
        r#""python":null,"implementation":null,"#,
        r#""distro":null,"system":null,"cpu":null,"#,
        r#""openssl_version":null,"setuptools_version":null}}"#
    ].concat();
    assert_eq!(json, expected);
    let value: serde_json::Value = serde_json::from_str(&json).unwrap();
    assert_eq!(value["url"], serde_json::Value::String("/simple/f\\o\"o/".to_string()));
}

#[test]
fn request_with_a_timestamp_that_is_no_instant_has_no_json() {
    let mut r = request(PAYLOAD);
    r.timestamp.month = 13;
    assert_eq!(r.to_json(), None);
}

#[test]
fn user_agent_written_as_json() {
    let ua = UserAgent::default();
    assert_eq!(
        ua.to_json(),
        [
            r#"{"installer":null,"python":null,"implementation":null,"distro":null,"#,
            r#""system":null,"cpu":null,"openssl_version":null,"setuptools_version":null}"#
        ]
        .concat()
    );
    let input = r#"pip/18.0 {"cpu":"x86_64","distro":{"id":"bionic","libc":{"lib":"glibc","version":"2.27"},"name":"Ubuntu","version":"18.04"},"python":"3.6.5"}"#;
    let ua = parser().parse(input).unwrap().unwrap();
    assert_eq!(
        ua.to_json(),
        [
            r#"{"installer":null,"python":"3.6.5","implementation":null,"#,
            r#""distro":{"name":"Ubuntu","version":"18.04","id":"bionic","#,
            r#""libc":{"lib":"glibc","version":"2.27"}},"#,
            r#""system":null,"cpu":"x86_64","openssl_version":null,"setuptools_version":null}"#
        ]
        .concat()
    );
    let again = format!("pip/18.0 {}", ua.to_json());
    assert_eq!(parser().parse(&again).unwrap().unwrap(), ua);
}
