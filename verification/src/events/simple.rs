//! The event of one request for a package:
//! `simple|date|country|url|tls protocol|tls cipher|user agent`.

use vstd::prelude::*;
use crate::events::EventParseError;
use crate::text::{
    blank_run, lemma_find, lemma_token_is_written, token_text, chars_of, copy_token, find, find_char, fixed_number, has_at, is_at,
    lemma_decimal_bound, nth_segment, optional_token, read_fixed, read_optional_token,
    scan_blanks, segment, slice_of, starts_with_at, ten_to, text_of,
};
use crate::json::{
    json_text, lemma_written, lemma_written_first, optional_json_text, push_optional_text,
    push_text,
};
use crate::timestamp::{instant, rfc3339, Timestamp};
use crate::ua::encode::{push_user_agent, user_agent_json};
use crate::ua::types::{UserAgent, UserAgentView};
use crate::ua::{classification, Outcome, OutcomeView, UserAgentParser};

verus! {

/// One request for a package.
#[derive(Debug, Clone, PartialEq, Eq)]
pub struct SimpleRequest {
    pub timestamp: Timestamp,
    pub url: String,
    pub project: String,
    pub tls_protocol: Option<String>,
    pub tls_cipher: Option<String>,
    pub country_code: String,
    pub details: UserAgent,
}

/// The mathematical value of [`SimpleRequest`].
pub struct SimpleRequestView {
    pub timestamp: Timestamp,
    pub url: Seq<char>,
    pub project: Seq<char>,
    pub tls_protocol: Option<Seq<char>>,
    pub tls_cipher: Option<Seq<char>>,
    pub country_code: Seq<char>,
    pub details: UserAgentView,
}

impl View for SimpleRequest {
    type V = SimpleRequestView;

    open spec fn view(&self) -> SimpleRequestView {
        SimpleRequestView {
            timestamp: self.timestamp,
            url: self.url@,
            project: self.project@,
            tls_protocol: text_of(self.tls_protocol),
            tls_cipher: text_of(self.tls_cipher),
            country_code: self.country_code@,
            details: self.details@,
        }
    }
}

/// The fields of a request as its text gives them, the user agent not yet
/// looked into.
pub struct SimpleFields {
    pub timestamp: Timestamp,
    pub country_code: Seq<char>,
    pub url: Seq<char>,
    pub project: Seq<char>,
    pub tls_protocol: Option<Seq<char>>,
    pub tls_cipher: Option<Seq<char>>,
    pub user_agent: Seq<char>,
}

/// The index, from 0, of the piece of the URL that names the project.
pub const PROJECT_SEGMENT: usize = 2;

/// `s` holds the short name of a day of the week at position `at`.
pub open spec fn is_weekday_at(s: Seq<char>, at: int) -> bool {
    has_at(s, at, "Mon"@) || has_at(s, at, "Tue"@) || has_at(s, at, "Wed"@) || has_at(
        s,
        at,
        "Thu"@,
    ) || has_at(s, at, "Fri"@) || has_at(s, at, "Sat"@) || has_at(s, at, "Sun"@)
}

/// The number, from 1 to 12, of the month whose short name `s` holds at
/// position `at`.
pub open spec fn month_at(s: Seq<char>, at: int) -> Option<nat> {
    if has_at(s, at, "Jan"@) {
        Some(1)
    } else if has_at(s, at, "Feb"@) {
        Some(2)
    } else if has_at(s, at, "Mar"@) {
        Some(3)
    } else if has_at(s, at, "Apr"@) {
        Some(4)
    } else if has_at(s, at, "May"@) {
        Some(5)
    } else if has_at(s, at, "Jun"@) {
        Some(6)
    } else if has_at(s, at, "Jul"@) {
        Some(7)
    } else if has_at(s, at, "Aug"@) {
        Some(8)
    } else if has_at(s, at, "Sep"@) {
        Some(9)
    } else if has_at(s, at, "Oct"@) {
        Some(10)
    } else if has_at(s, at, "Nov"@) {
        Some(11)
    } else if has_at(s, at, "Dec"@) {
        Some(12)
    } else {
        None
    }
}

/// The instant that `s` writes at position `at`, and where the date ends:
/// a day of the week, a comma, the day, the month by its name, the year,
/// the time as `HH:MM:SS` and the word `GMT`, with one or more spaces or
/// tabs between them. The day of the week is not held against the date.
pub open spec fn date_at(s: Seq<char>, at: int) -> Option<(Timestamp, int)> {
    let day_at = blank_run(s, at + 4);
    let month_pos = blank_run(s, day_at + 2);
    let year_at = blank_run(s, month_pos + 3);
    let time_at = blank_run(s, year_at + 4);
    let zone_at = blank_run(s, time_at + 8);
    if 0 <= at && at + 4 <= s.len() && is_weekday_at(s, at) && s[at + 3] == ',' && at + 4
        < day_at && fixed_number(s, day_at, 2) is Some && day_at + 2 < month_pos && month_pos + 3
        <= s.len() && month_at(s, month_pos) is Some && month_pos + 3 < year_at && fixed_number(
        s,
        year_at,
        4,
    ) is Some && year_at + 4 < time_at && time_at + 8 <= s.len() && fixed_number(s, time_at, 2)
        is Some && s[time_at + 2] == ':' && fixed_number(s, time_at + 3, 2) is Some && s[time_at
        + 5] == ':' && fixed_number(s, time_at + 6, 2) is Some && time_at + 8 < zone_at && zone_at
        + 3 <= s.len() && has_at(s, zone_at, "GMT"@) {
        match instant(
            fixed_number(s, year_at, 4)->0 as int,
            month_at(s, month_pos)->0 as int,
            fixed_number(s, day_at, 2)->0 as int,
            fixed_number(s, time_at, 2)->0 as int,
            fixed_number(s, time_at + 3, 2)->0 as int,
            fixed_number(s, time_at + 6, 2)->0 as int,
        ) {
            Some(t) => Some((t, zone_at + 3)),
            None => None,
        }
    } else {
        None
    }
}

/// What follows the date of a request, from the bar at position `at`: the
/// country, the URL, the two optional facts of TLS and, as all the rest,
/// the user agent. The project is the piece of index 2 of the URL cut at
/// `/`, and a URL without one is refused.
pub open spec fn fields_after_date(s: Seq<char>, at: int, timestamp: Timestamp) -> Option<
    SimpleFields,
> {
    let country_at = at + 1;
    let country_end = find(s, '|', country_at);
    let url_at = country_end + 1;
    let url_end = find(s, '|', url_at);
    if !(0 <= at < s.len() && s[at] == '|' && country_end < s.len() && url_end < s.len()) {
        None
    } else {
        match optional_token(s, url_end + 1, '|') {
            None => None,
            Some((tls_protocol, protocol_end)) => {
                if !(protocol_end < s.len() && s[protocol_end] == '|') {
                    None
                } else {
                    match optional_token(s, protocol_end + 1, '|') {
                        None => None,
                        Some((tls_cipher, cipher_end)) => {
                            let url = s.subrange(url_at, url_end);
                            if cipher_end < s.len() && s[cipher_end] == '|' && segment(
                                url,
                                '/',
                                PROJECT_SEGMENT as nat,
                            ) is Some {
                                Some(
                                    SimpleFields {
                                        timestamp,
                                        country_code: s.subrange(country_at, country_end),
                                        url,
                                        project: segment(url, '/', PROJECT_SEGMENT as nat)->0,
                                        tls_protocol,
                                        tls_cipher,
                                        user_agent: s.skip(cipher_end + 1),
                                    },
                                )
                            } else {
                                None
                            }
                        },
                    }
                }
            },
        }
    }
}

/// The fields of the request that `s` writes, if it writes one: the word
/// `simple`, a bar, the date and what follows it.
pub open spec fn simple_fields(s: Seq<char>) -> Option<SimpleFields> {
    if has_at(s, 0, "simple"@) && 7 <= s.len() && s[6] == '|' {
        match date_at(s, 7) {
            Some((timestamp, end)) => fields_after_date(s, end, timestamp),
            None => None,
        }
    } else {
        None
    }
}

/// A text that writes a request is its fields in a row, with bars between
/// them: the word `simple`, the date, the country, the URL, the two facts
/// of TLS, each `-` where it is absent, and the user agent.
pub proof fn lemma_request_is_its_fields(s: Seq<char>)
    requires
        simple_fields(s) is Some,
    ensures
        ({
            let fields = simple_fields(s)->0;
            let (timestamp, date_end) = date_at(s, 7)->Some_0;
            &&& 7 <= date_end <= s.len()
            &&& fields.timestamp == timestamp
            &&& s == "simple"@ + seq!['|'] + s.subrange(7, date_end) + seq!['|']
                + fields.country_code + seq!['|'] + fields.url + seq!['|'] + token_text(
                fields.tls_protocol,
            ) + seq!['|'] + token_text(fields.tls_cipher) + seq!['|'] + fields.user_agent
        }),
{
    reveal_strlit("simple");
    let (timestamp, date_end) = date_at(s, 7)->Some_0;
    crate::text::lemma_blank_run(s, 11);
    let day_at = blank_run(s, 11);
    crate::text::lemma_blank_run(s, day_at + 2);
    let month_pos = blank_run(s, day_at + 2);
    crate::text::lemma_blank_run(s, month_pos + 3);
    let year_at = blank_run(s, month_pos + 3);
    crate::text::lemma_blank_run(s, year_at + 4);
    let time_at = blank_run(s, year_at + 4);
    crate::text::lemma_blank_run(s, time_at + 8);
    let country_at = date_end + 1;
    lemma_find(s, '|', country_at);
    let country_end = find(s, '|', country_at);
    let url_at = country_end + 1;
    lemma_find(s, '|', url_at);
    let url_end = find(s, '|', url_at);
    lemma_token_is_written(s, url_end + 1, '|');
    let (tls_protocol, protocol_end) = optional_token(s, url_end + 1, '|')->Some_0;
    lemma_token_is_written(s, protocol_end + 1, '|');
    let (tls_cipher, cipher_end) = optional_token(s, protocol_end + 1, '|')->Some_0;
    assert(s.subrange(0, 6) == "simple"@);
    assert(s =~= s.subrange(0, 6) + seq!['|'] + s.subrange(7, date_end) + seq!['|'] + s.subrange(
        country_at,
        country_end,
    ) + seq!['|'] + s.subrange(url_at, url_end) + seq!['|'] + s.subrange(
        url_end + 1,
        protocol_end,
    ) + seq!['|'] + s.subrange(protocol_end + 1, cipher_end) + seq!['|'] + s.skip(cipher_end + 1));
}

/// The request that `s` writes: an error where the text is malformed or
/// its user agent is not recognized, nothing where the user agent is one
/// that is ignored.
pub open spec fn simple_request_of(s: Seq<char>) -> Result<
    Option<SimpleRequestView>,
    EventParseError,
> {
    match simple_fields(s) {
        None => Err(EventParseError::Error),
        Some(fields) => match classification(fields.user_agent) {
            OutcomeView::Structured(details) => Ok(
                Some(
                    SimpleRequestView {
                        timestamp: fields.timestamp,
                        url: fields.url,
                        project: fields.project,
                        tls_protocol: fields.tls_protocol,
                        tls_cipher: fields.tls_cipher,
                        country_code: fields.country_code,
                        details,
                    },
                ),
            ),
            OutcomeView::Ignored => Ok(None),
            OutcomeView::Unrecognized => Err(EventParseError::InvalidUserAgent),
        },
    }
}

/// The value of the result of reading a request.
pub open spec fn parsed_view(r: Result<Option<SimpleRequest>, EventParseError>) -> Result<
    Option<SimpleRequestView>,
    EventParseError,
> {
    match r {
        Ok(Some(request)) => Ok(Some(request@)),
        Ok(None) => Ok(None),
        Err(e) => Err(e),
    }
}

/// Whether `chars` holds the short name of a day of the week at `at`.
fn weekday_at(chars: &Vec<char>, at: usize) -> (r: bool)
    ensures
        r == is_weekday_at(chars@, at as int),
{
    starts_with_at(chars, at, "Mon") || starts_with_at(chars, at, "Tue") || starts_with_at(
        chars,
        at,
        "Wed",
    ) || starts_with_at(chars, at, "Thu") || starts_with_at(chars, at, "Fri") || starts_with_at(
        chars,
        at,
        "Sat",
    ) || starts_with_at(chars, at, "Sun")
}

/// The number of the month whose short name `chars` holds at `at`.
fn read_month(chars: &Vec<char>, at: usize) -> (r: Option<u32>)
    ensures
        match r {
            Some(m) => month_at(chars@, at as int) == Some(m as nat),
            None => month_at(chars@, at as int) is None,
        },
{
    if starts_with_at(chars, at, "Jan") {
        Some(1)
    } else if starts_with_at(chars, at, "Feb") {
        Some(2)
    } else if starts_with_at(chars, at, "Mar") {
        Some(3)
    } else if starts_with_at(chars, at, "Apr") {
        Some(4)
    } else if starts_with_at(chars, at, "May") {
        Some(5)
    } else if starts_with_at(chars, at, "Jun") {
        Some(6)
    } else if starts_with_at(chars, at, "Jul") {
        Some(7)
    } else if starts_with_at(chars, at, "Aug") {
        Some(8)
    } else if starts_with_at(chars, at, "Sep") {
        Some(9)
    } else if starts_with_at(chars, at, "Oct") {
        Some(10)
    } else if starts_with_at(chars, at, "Nov") {
        Some(11)
    } else if starts_with_at(chars, at, "Dec") {
        Some(12)
    } else {
        None
    }
}

/// Reads the date at position `at`: the instant, and where the date ends.
fn read_date(chars: &Vec<char>, at: usize) -> (r: Option<(Timestamp, usize)>)
    ensures
        match r {
            Some((t, end)) => date_at(chars@, at as int) == Some((t, end as int)) && end
                <= chars@.len(),
            None => date_at(chars@, at as int) is None,
        },
{
    let n = chars.len();
    if at > n || n - at < 4 {
        return None;
    }
    if !weekday_at(chars, at) || chars[at + 3] != ',' {
        return None;
    }
    let day_at = scan_blanks(chars, at + 4);
    if day_at == at + 4 {
        return None;
    }
    let day = match read_fixed(chars, day_at, 2) {
        Some(d) => d,
        None => {
            return None;
        },
    };
    let month_pos = scan_blanks(chars, day_at + 2);
    if month_pos == day_at + 2 || n - month_pos < 3 {
        return None;
    }
    let month = match read_month(chars, month_pos) {
        Some(m) => m,
        None => {
            return None;
        },
    };
    let year_at = scan_blanks(chars, month_pos + 3);
    if year_at == month_pos + 3 {
        return None;
    }
    let year = match read_fixed(chars, year_at, 4) {
        Some(y) => y,
        None => {
            return None;
        },
    };
    let time_at = scan_blanks(chars, year_at + 4);
    if time_at == year_at + 4 || n - time_at < 8 {
        return None;
    }
    let hour = match read_fixed(chars, time_at, 2) {
        Some(h) => h,
        None => {
            return None;
        },
    };
    let minute = match read_fixed(chars, time_at + 3, 2) {
        Some(m) => m,
        None => {
            return None;
        },
    };
    let second = match read_fixed(chars, time_at + 6, 2) {
        Some(s) => s,
        None => {
            return None;
        },
    };
    if chars[time_at + 2] != ':' || chars[time_at + 5] != ':' {
        return None;
    }
    let zone_at = scan_blanks(chars, time_at + 8);
    if zone_at == time_at + 8 || n - zone_at < 3 || !starts_with_at(chars, zone_at, "GMT") {
        return None;
    }
    proof {
        lemma_decimal_bound(chars@.subrange(year_at as int, year_at + 4));
        reveal_with_fuel(ten_to, 5);
    }
    match Timestamp::new(year as i32, month, day, hour, minute, second) {
        Some(t) => Some((t, zone_at + 3)),
        None => None,
    }
}

/// Reads one request, the word `simple` first.
///
/// The result is `Ok(None)` for a request whose user agent is one that is
/// ignored, `Err(InvalidUserAgent)` for one whose user agent no rule
/// answers, and `Err(Error)` for a text that is no request, whatever its
/// user agent.
pub fn parse_v3(parser: &UserAgentParser, s: &str) -> (r: Result<
    Option<SimpleRequest>,
    EventParseError,
>)
    ensures
        parsed_view(r) == simple_request_of(s@),
{
    let chars = chars_of(s);
    if !starts_with_at(&chars, 0, "simple") || !is_at(&chars, 6, '|') {
        return Err(EventParseError::Error);
    }
    let (timestamp, date_end) = match read_date(&chars, 7) {
        Some(found) => found,
        None => {
            return Err(EventParseError::Error);
        },
    };
    if !is_at(&chars, date_end, '|') {
        return Err(EventParseError::Error);
    }
    let country_at = date_end + 1;
    let country_end = find_char(&chars, '|', country_at);
    if country_end >= chars.len() {
        return Err(EventParseError::Error);
    }
    let url_at = country_end + 1;
    let url_end = find_char(&chars, '|', url_at);
    if url_end >= chars.len() {
        return Err(EventParseError::Error);
    }
    let protocol_at = url_end + 1;
    let (has_protocol, protocol_end) = match read_optional_token(&chars, protocol_at, '|') {
        Some(found) => found,
        None => {
            return Err(EventParseError::Error);
        },
    };
    if !is_at(&chars, protocol_end, '|') {
        return Err(EventParseError::Error);
    }
    let cipher_at = protocol_end + 1;
    let (has_cipher, cipher_end) = match read_optional_token(&chars, cipher_at, '|') {
        Some(found) => found,
        None => {
            return Err(EventParseError::Error);
        },
    };
    if !is_at(&chars, cipher_end, '|') {
        return Err(EventParseError::Error);
    }
    let url = slice_of(s, url_at, url_end);
    let project = match nth_segment(url.as_str(), '/', PROJECT_SEGMENT) {
        Some(project) => project,
        None => {
            return Err(EventParseError::Error);
        },
    };
    let country_code = slice_of(s, country_at, country_end);
    let tls_protocol = copy_token(s, has_protocol, protocol_at, protocol_end);
    let tls_cipher = copy_token(s, has_cipher, cipher_at, cipher_end);
    let user_agent = slice_of(s, cipher_end + 1, chars.len());
    assert(s@.skip(cipher_end + 1) =~= s@.subrange(cipher_end + 1, s@.len() as int));
    match parser.classify(user_agent.as_str()) {
        Outcome::Structured(details) => Ok(
            Some(
                SimpleRequest {
                    timestamp,
                    url,
                    project,
                    tls_protocol,
                    tls_cipher,
                    country_code,
                    details,
                },
            ),
        ),
        Outcome::Ignored => Ok(None),
        Outcome::Unrecognized => Err(EventParseError::InvalidUserAgent),
    }
}

/// A request written as JSON: an object of its seven fields in their
/// order, the instant as `YYYY-MM-DDTHH:MM:SSZ`, `null` for what is
/// absent. `None` where the instant does not exist.
pub open spec fn simple_request_json(r: SimpleRequestView) -> Option<Seq<char>> {
    if r.timestamp.wf() {
        Some(
            "{\"timestamp\":\""@ + rfc3339(r.timestamp) + "\",\"url\":"@ + json_text(r.url)
                + ",\"project\":"@ + json_text(r.project) + ",\"tls_protocol\":"@
                + optional_json_text(r.tls_protocol) + ",\"tls_cipher\":"@ + optional_json_text(
                r.tls_cipher,
            ) + ",\"country_code\":"@ + json_text(r.country_code) + ",\"details\":"@
                + user_agent_json(r.details) + "}"@,
        )
    } else {
        None
    }
}

impl SimpleRequest {
    /// Appends this request, written as JSON, to `out`. Where its instant
    /// does not exist, `out` stays as it is.
    pub fn push_json(&self, out: &mut String) -> (ok: bool)
        ensures
            match simple_request_json(self@) {
                Some(text) => ok && final(out)@ == old(out)@ + text,
                None => !ok && final(out)@ == old(out)@,
            },
    {
        let ghost start = out@;
        if !self.timestamp.is_valid() {
            return false;
        }
        let ghost v0 = json_text(self.url@);
        let ghost v1 = json_text(self.project@);
        let ghost v2 = optional_json_text(text_of(self.tls_protocol));
        let ghost v3 = optional_json_text(text_of(self.tls_cipher));
        let ghost v4 = json_text(self.country_code@);
        let ghost v5 = user_agent_json(self.details@);
        out.append("{\"timestamp\":\"");
        self.timestamp.push_rfc3339(out);
        proof {
            lemma_written_first(start, "{\"timestamp\":\""@, rfc3339(self.timestamp));
        }
        let ghost done = "{\"timestamp\":\""@ + rfc3339(self.timestamp);
        out.append("\",\"url\":");
        push_text(out, self.url.as_str());
        proof {
            lemma_written(start, done, "\",\"url\":"@, v0);
        }
        let ghost done0 = done + "\",\"url\":"@ + v0;
        out.append(",\"project\":");
        push_text(out, self.project.as_str());
        proof {
            lemma_written(start, done0, ",\"project\":"@, v1);
        }
        let ghost done1 = done0 + ",\"project\":"@ + v1;
        out.append(",\"tls_protocol\":");
        push_optional_text(out, &self.tls_protocol);
        proof {
            lemma_written(start, done1, ",\"tls_protocol\":"@, v2);
        }
        let ghost done2 = done1 + ",\"tls_protocol\":"@ + v2;
        out.append(",\"tls_cipher\":");
        push_optional_text(out, &self.tls_cipher);
        proof {
            lemma_written(start, done2, ",\"tls_cipher\":"@, v3);
        }
        let ghost done3 = done2 + ",\"tls_cipher\":"@ + v3;
        out.append(",\"country_code\":");
        push_text(out, self.country_code.as_str());
        proof {
            lemma_written(start, done3, ",\"country_code\":"@, v4);
        }
        let ghost done4 = done3 + ",\"country_code\":"@ + v4;
        out.append(",\"details\":");
        push_user_agent(out, &self.details);
        proof {
            lemma_written(start, done4, ",\"details\":"@, v5);
        }
        let ghost done5 = done4 + ",\"details\":"@ + v5;
        out.append("}");
        proof {
            lemma_written_first(start, done5, "}"@);
        }
        true
    }

    /// This request written as JSON; `None` where its instant does not
    /// exist.
    pub fn to_json(&self) -> (r: Option<String>)
        ensures
            text_of(r) == simple_request_json(self@),
    {
        let mut out = String::new();
        if self.push_json(&mut out) {
            assert(out@ =~= simple_request_json(self@)->0);
            Some(out)
        } else {
            None
        }
    }
}

} // verus!
