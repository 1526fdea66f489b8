//! The transport frame that wraps each log line:
//! `<priority>timestamp hostname app[pid]: message`.

use vstd::prelude::*;
use crate::text::{
    all_digits, chars_of, copy_token, decimal, digit_run, find, find_char, fixed_number, has_at, is_at,
    lemma_decimal_bound, lemma_digit_run, lemma_find, lemma_token_is_written, optional_token, read_decimal, read_fixed,
    read_optional_token, scan_digits, slice_of, starts_with_at, ten_to, text_of, token_text,
};
use crate::timestamp::{instant, lemma_four_digits, lemma_two_digits, rfc3339, Timestamp};

verus! {

/// A facility code that names no facility.
#[derive(Debug, Clone, Copy, PartialEq, Eq, Structural)]
pub struct InvalidFacility;

impl InvalidFacility {
    /// What went wrong, in words.
    pub fn message(&self) -> (r: &'static str)
        ensures
            r@ == "invalid value for Facility"@,
    {
        "invalid value for Facility"
    }
}

/// The 24 facilities of a transport frame, in the order of their codes.
#[derive(Debug, Clone, Copy, PartialEq, Eq, Structural)]
pub enum Facility {
    Kernel,
    User,
    Mail,
    Daemon,
    Auth,
    Syslog,
    LPR,
    News,
    UUCP,
    Clock,
    AuthPriv,
    FTP,
    NTP,
    Audit,
    Alert,
    Cron,
    Local0,
    Local1,
    Local2,
    Local3,
    Local4,
    Local5,
    Local6,
    Local7,
}

impl Facility {
    /// The code of this facility.
    pub open spec fn code(self) -> u8 {
        match self {
            Facility::Kernel => 0,
            Facility::User => 1,
            Facility::Mail => 2,
            Facility::Daemon => 3,
            Facility::Auth => 4,
            Facility::Syslog => 5,
            Facility::LPR => 6,
            Facility::News => 7,
            Facility::UUCP => 8,
            Facility::Clock => 9,
            Facility::AuthPriv => 10,
            Facility::FTP => 11,
            Facility::NTP => 12,
            Facility::Audit => 13,
            Facility::Alert => 14,
            Facility::Cron => 15,
            Facility::Local0 => 16,
            Facility::Local1 => 17,
            Facility::Local2 => 18,
            Facility::Local3 => 19,
            Facility::Local4 => 20,
            Facility::Local5 => 21,
            Facility::Local6 => 22,
            Facility::Local7 => 23,
        }
    }

    /// The facility with the given code, where there is one.
    pub open spec fn of_code(code: int) -> Option<Facility> {
        if code == 0 {
            Some(Facility::Kernel)
        } else if code == 1 {
            Some(Facility::User)
        } else if code == 2 {
            Some(Facility::Mail)
        } else if code == 3 {
            Some(Facility::Daemon)
        } else if code == 4 {
            Some(Facility::Auth)
        } else if code == 5 {
            Some(Facility::Syslog)
        } else if code == 6 {
            Some(Facility::LPR)
        } else if code == 7 {
            Some(Facility::News)
        } else if code == 8 {
            Some(Facility::UUCP)
        } else if code == 9 {
            Some(Facility::Clock)
        } else if code == 10 {
            Some(Facility::AuthPriv)
        } else if code == 11 {
            Some(Facility::FTP)
        } else if code == 12 {
            Some(Facility::NTP)
        } else if code == 13 {
            Some(Facility::Audit)
        } else if code == 14 {
            Some(Facility::Alert)
        } else if code == 15 {
            Some(Facility::Cron)
        } else if code == 16 {
            Some(Facility::Local0)
        } else if code == 17 {
            Some(Facility::Local1)
        } else if code == 18 {
            Some(Facility::Local2)
        } else if code == 19 {
            Some(Facility::Local3)
        } else if code == 20 {
            Some(Facility::Local4)
        } else if code == 21 {
            Some(Facility::Local5)
        } else if code == 22 {
            Some(Facility::Local6)
        } else if code == 23 {
            Some(Facility::Local7)
        } else {
            None
        }
    }

    /// The facility with the given code; codes from 24 on name none.
    pub fn from_u8(code: u8) -> (r: Result<Facility, InvalidFacility>)
        ensures
            r == match Facility::of_code(code as int) {
                Some(found) => Ok::<Facility, InvalidFacility>(found),
                None => Err::<Facility, InvalidFacility>(InvalidFacility),
            },
            r is Ok <==> code < 24,
            r matches Ok(found) ==> found.code() == code,
    {
        match code {
            0 => Ok(Facility::Kernel),
            1 => Ok(Facility::User),
            2 => Ok(Facility::Mail),
            3 => Ok(Facility::Daemon),
            4 => Ok(Facility::Auth),
            5 => Ok(Facility::Syslog),
            6 => Ok(Facility::LPR),
            7 => Ok(Facility::News),
            8 => Ok(Facility::UUCP),
            9 => Ok(Facility::Clock),
            10 => Ok(Facility::AuthPriv),
            11 => Ok(Facility::FTP),
            12 => Ok(Facility::NTP),
            13 => Ok(Facility::Audit),
            14 => Ok(Facility::Alert),
            15 => Ok(Facility::Cron),
            16 => Ok(Facility::Local0),
            17 => Ok(Facility::Local1),
            18 => Ok(Facility::Local2),
            19 => Ok(Facility::Local3),
            20 => Ok(Facility::Local4),
            21 => Ok(Facility::Local5),
            22 => Ok(Facility::Local6),
            23 => Ok(Facility::Local7),
            _ => Err(InvalidFacility),
        }
    }
}

/// A severity code that names no severity.
#[derive(Debug, Clone, Copy, PartialEq, Eq, Structural)]
pub struct InvalidSeverity;

impl InvalidSeverity {
    /// What went wrong, in words.
    pub fn message(&self) -> (r: &'static str)
        ensures
            r@ == "invalid value for Severity"@,
    {
        "invalid value for Severity"
    }
}

/// The 8 severities of a transport frame, in the order of their codes.
#[derive(Debug, Clone, Copy, PartialEq, Eq, Structural)]
pub enum Severity {
    Emergency,
    Alert,
    Critical,
    Error,
    Warning,
    Notice,
    Informational,
    Debug,
}

impl Severity {
    /// The code of this severity.
    pub open spec fn code(self) -> u8 {
        match self {
            Severity::Emergency => 0,
            Severity::Alert => 1,
            Severity::Critical => 2,
            Severity::Error => 3,
            Severity::Warning => 4,
            Severity::Notice => 5,
            Severity::Informational => 6,
            Severity::Debug => 7,
        }
    }

    /// The severity with the given code, where there is one.
    pub open spec fn of_code(code: int) -> Option<Severity> {
        if code == 0 {
            Some(Severity::Emergency)
        } else if code == 1 {
            Some(Severity::Alert)
        } else if code == 2 {
            Some(Severity::Critical)
        } else if code == 3 {
            Some(Severity::Error)
        } else if code == 4 {
            Some(Severity::Warning)
        } else if code == 5 {
            Some(Severity::Notice)
        } else if code == 6 {
            Some(Severity::Informational)
        } else if code == 7 {
            Some(Severity::Debug)
        } else {
            None
        }
    }

    /// The severity with the given code; codes from 8 on name none.
    pub fn from_u8(code: u8) -> (r: Result<Severity, InvalidSeverity>)
        ensures
            r == match Severity::of_code(code as int) {
                Some(found) => Ok::<Severity, InvalidSeverity>(found),
                None => Err::<Severity, InvalidSeverity>(InvalidSeverity),
            },
            r is Ok <==> code < 8,
            r matches Ok(found) ==> found.code() == code,
    {
        match code {
            0 => Ok(Severity::Emergency),
            1 => Ok(Severity::Alert),
            2 => Ok(Severity::Critical),
            3 => Ok(Severity::Error),
            4 => Ok(Severity::Warning),
            5 => Ok(Severity::Notice),
            6 => Ok(Severity::Informational),
            7 => Ok(Severity::Debug),
            _ => Err(InvalidSeverity),
        }
    }
}

/// What a transport frame holds, as mathematical values.
pub struct SyslogMessageView {
    pub facility: Facility,
    pub severity: Severity,
    pub timestamp: Timestamp,
    pub hostname: Option<Seq<char>>,
    pub appname: Seq<char>,
    pub procid: Option<Seq<char>>,
    pub message: Seq<char>,
}

/// One decoded transport frame.
#[derive(Debug, Clone, PartialEq, Eq)]
pub struct SyslogMessage {
    pub facility: Facility,
    pub severity: Severity,
    pub timestamp: Timestamp,
    pub hostname: Option<String>,
    pub appname: String,
    pub procid: Option<String>,
    pub message: String,
}

impl View for SyslogMessage {
    type V = SyslogMessageView;

    open spec fn view(&self) -> SyslogMessageView {
        SyslogMessageView {
            facility: self.facility,
            severity: self.severity,
            timestamp: self.timestamp,
            hostname: text_of(self.hostname),
            appname: self.appname@,
            procid: text_of(self.procid),
            message: self.message@,
        }
    }
}

/// A line that is no transport frame.
#[derive(Debug, Clone, Copy, PartialEq, Eq, Structural)]
pub struct SyslogParseError;

/// The largest priority that names a facility and a severity.
pub const MAX_PRIORITY: u32 = 191;

/// The instant written as `YYYY-MM-DDTHH:MM:SSZ` at position `at` of `s`.
pub open spec fn iso8601_at(s: Seq<char>, at: int) -> Option<Timestamp> {
    if 0 <= at && at + 20 <= s.len() && s[at + 4] == '-' && s[at + 7] == '-' && s[at + 10] == 'T'
        && s[at + 13] == ':' && s[at + 16] == ':' && s[at + 19] == 'Z' && fixed_number(s, at, 4)
        is Some && fixed_number(s, at + 5, 2) is Some && fixed_number(s, at + 8, 2) is Some
        && fixed_number(s, at + 11, 2) is Some && fixed_number(s, at + 14, 2) is Some
        && fixed_number(s, at + 17, 2) is Some {
        instant(
            fixed_number(s, at, 4)->0 as int,
            fixed_number(s, at + 5, 2)->0 as int,
            fixed_number(s, at + 8, 2)->0 as int,
            fixed_number(s, at + 11, 2)->0 as int,
            fixed_number(s, at + 14, 2)->0 as int,
            fixed_number(s, at + 17, 2)->0 as int,
        )
    } else {
        None
    }
}

/// The priority of a line: the number between `<` and `>` at its start.
pub open spec fn priority_of(line: Seq<char>) -> Option<nat> {
    let end = digit_run(line, 1);
    if line.len() > 0 && line[0] == '<' && 1 < end < line.len() && line[end] == '>' {
        Some(decimal(line.subrange(1, end)))
    } else {
        None
    }
}

/// What follows the timestamp of a frame, from position `at`: the space, the
/// host name, the application, the process id and the message.
pub open spec fn frame_tail(
    line: Seq<char>,
    at: int,
    facility: Facility,
    severity: Severity,
    timestamp: Timestamp,
) -> Option<SyslogMessageView> {
    if !(0 <= at < line.len() && line[at] == ' ') {
        None
    } else {
        match optional_token(line, at + 1, ' ') {
            None => None,
            Some((hostname, host_end)) => {
                let app_at = host_end + 1;
                let app_end = find(line, '[', app_at);
                if !(host_end < line.len() && line[host_end] == ' ' && app_end < line.len()) {
                    None
                } else {
                    match optional_token(line, app_end + 1, ']') {
                        None => None,
                        Some((procid, pid_end)) => {
                            if has_at(line, pid_end, seq![']', ':', ' ']) {
                                Some(
                                    SyslogMessageView {
                                        facility,
                                        severity,
                                        timestamp,
                                        hostname,
                                        appname: line.subrange(app_at, app_end),
                                        procid,
                                        message: line.skip(pid_end + 3),
                                    },
                                )
                            } else {
                                None
                            }
                        },
                    }
                }
            },
        }
    }
}

/// The frame that a line writes, if it writes one: a priority of at most
/// 191, of which the facility is the quotient by 8 and the severity the
/// remainder, then the timestamp and the rest.
pub open spec fn frame_of(line: Seq<char>) -> Option<SyslogMessageView> {
    match priority_of(line) {
        None => None,
        Some(priority) => {
            let stamp_at = digit_run(line, 1) + 1;
            match iso8601_at(line, stamp_at) {
                None => None,
                Some(timestamp) => {
                    if priority <= MAX_PRIORITY {
                        frame_tail(
                            line,
                            stamp_at + 20,
                            Facility::of_code(priority as int / 8)->0,
                            Severity::of_code(priority as int % 8)->0,
                            timestamp,
                        )
                    } else {
                        None
                    }
                },
            }
        },
    }
}

/// Reads the timestamp at position `at`.
fn read_iso8601(chars: &Vec<char>, at: usize) -> (r: Option<Timestamp>)
    ensures
        r == iso8601_at(chars@, at as int),
        r is Some ==> at + 20 <= chars@.len(),
{
    if at > chars.len() || chars.len() - at < 20 {
        return None;
    }
    if !(chars[at + 4] == '-' && chars[at + 7] == '-' && chars[at + 10] == 'T' && chars[at + 13]
        == ':' && chars[at + 16] == ':' && chars[at + 19] == 'Z') {
        return None;
    }
    let year = read_fixed(chars, at, 4);
    let month = read_fixed(chars, at + 5, 2);
    let day = read_fixed(chars, at + 8, 2);
    let hour = read_fixed(chars, at + 11, 2);
    let minute = read_fixed(chars, at + 14, 2);
    let second = read_fixed(chars, at + 17, 2);
    match (year, month, day, hour, minute, second) {
        (Some(y), Some(mo), Some(d), Some(h), Some(mi), Some(s)) => {
            proof {
                lemma_decimal_bound(chars@.subrange(at as int, at + 4));
                reveal_with_fuel(ten_to, 5);
            }
            Timestamp::new(y as i32, mo, d, h, mi, s)
        },
        _ => None,
    }
}

/// Decodes one line as a transport frame,
/// `<priority>timestamp hostname app[pid]: message`.
///
/// The line is refused exactly where it writes no frame: the priority is
/// missing, is no number or exceeds 191; the timestamp is not of the form
/// `YYYY-MM-DDTHH:MM:SSZ` or names no instant; or a delimiter is missing.
pub fn parse(line: &str) -> (r: Result<SyslogMessage, SyslogParseError>)
    ensures
        match r {
            Ok(m) => frame_of(line@) == Some(m@),
            Err(_) => frame_of(line@) is None,
        },
{
    let chars = chars_of(line);
    if !is_at(&chars, 0, '<') {
        return Err(SyslogParseError);
    }
    let p_end = scan_digits(&chars, 1);
    proof {
        lemma_digit_run(chars@, 1);
    }
    if p_end == 1 || !is_at(&chars, p_end, '>') {
        return Err(SyslogParseError);
    }
    let stamp_at = p_end + 1;
    let timestamp = match read_iso8601(&chars, stamp_at) {
        Some(t) => t,
        None => {
            return Err(SyslogParseError);
        },
    };
    let priority = match read_decimal(&chars, 1, p_end, MAX_PRIORITY) {
        Some(p) => p,
        None => {
            return Err(SyslogParseError);
        },
    };
    let facility = match Facility::from_u8((priority / 8) as u8) {
        Ok(f) => f,
        Err(_) => {
            return Err(SyslogParseError);
        },
    };
    let severity = match Severity::from_u8((priority % 8) as u8) {
        Ok(s) => s,
        Err(_) => {
            return Err(SyslogParseError);
        },
    };
    let space_at = stamp_at + 20;
    if !is_at(&chars, space_at, ' ') {
        return Err(SyslogParseError);
    }
    let host_at = space_at + 1;
    let (has_host, host_end) = match read_optional_token(&chars, host_at, ' ') {
        Some(t) => t,
        None => {
            return Err(SyslogParseError);
        },
    };
    if !is_at(&chars, host_end, ' ') {
        return Err(SyslogParseError);
    }
    let app_at = host_end + 1;
    let app_end = find_char(&chars, '[', app_at);
    if app_end >= chars.len() {
        return Err(SyslogParseError);
    }
    let pid_at = app_end + 1;
    let (has_pid, pid_end) = match read_optional_token(&chars, pid_at, ']') {
        Some(t) => t,
        None => {
            return Err(SyslogParseError);
        },
    };
    proof {
        reveal_strlit("]: ");
        assert("]: "@ =~= seq![']', ':', ' ']);
    }
    if !starts_with_at(&chars, pid_end, "]: ") {
        return Err(SyslogParseError);
    }
    let hostname = copy_token(line, has_host, host_at, host_end);
    let appname = slice_of(line, app_at, app_end);
    let procid = copy_token(line, has_pid, pid_at, pid_end);
    let message = slice_of(line, pid_end + 3, chars.len());
    assert(line@.skip(pid_end + 3) =~= line@.subrange(pid_end + 3, line@.len() as int));
    Ok(SyslogMessage { facility, severity, timestamp, hostname, appname, procid, message })
}

impl SyslogMessage {
    /// Decodes one line as a transport frame.
    pub fn from_str(s: &str) -> (r: Result<SyslogMessage, SyslogParseError>)
        ensures
            match r {
                Ok(m) => frame_of(s@) == Some(m@),
                Err(_) => frame_of(s@) is None,
            },
    {
        parse(s)
    }
}

/// Every priority up to 191 names a facility, whose code is the quotient by
/// 8, and a severity, whose code is the remainder; a larger one names no
/// facility.
pub proof fn lemma_priority_decomposition(p: nat)
    ensures
        p <= 191 ==> Facility::of_code(p as int / 8) is Some && Facility::of_code(
            p as int / 8,
        )->0.code() == p / 8 && Severity::of_code(p as int % 8) is Some && Severity::of_code(
            p as int % 8,
        )->0.code() == p % 8,
        p >= 192 ==> Facility::of_code(p as int / 8) is None,
{
}

/// The facility and the severity of a frame are those of the priority that
/// its line writes, and a line that writes a priority above 191 is no frame.
pub proof fn lemma_frame_priority(line: Seq<char>)
    ensures
        frame_of(line) matches Some(m) ==> priority_of(line) is Some && priority_of(line)->0
            <= 191 && m.facility.code() == priority_of(line)->0 / 8 && m.severity.code()
            == priority_of(line)->0 % 8,
        priority_of(line) is Some && priority_of(line)->0 >= 192 ==> frame_of(line) is None,
{
    if frame_of(line) is Some {
        lemma_priority_decomposition(priority_of(line)->0);
    }
}

/// A frame as a line writes it, with the digits of its priority:
/// `<priority>timestamp hostname app[pid]: message`.
pub open spec fn frame_text(digits: Seq<char>, frame: SyslogMessageView) -> Seq<char> {
    seq!['<'] + digits + seq!['>'] + rfc3339(frame.timestamp) + seq![' '] + token_text(
        frame.hostname,
    ) + seq![' '] + frame.appname + seq!['['] + token_text(frame.procid) + seq![']', ':', ' ']
        + frame.message
}

/// The instant at a position of a line is written there as
/// `YYYY-MM-DDTHH:MM:SSZ`.
proof fn lemma_iso8601_is_written(s: Seq<char>, at: int)
    requires
        iso8601_at(s, at) is Some,
    ensures
        s.subrange(at, at + 20) == rfc3339(iso8601_at(s, at)->0),
{
    lemma_four_digits(s, at);
    lemma_two_digits(s, at + 5);
    lemma_two_digits(s, at + 8);
    lemma_two_digits(s, at + 11);
    lemma_two_digits(s, at + 14);
    lemma_two_digits(s, at + 17);
    let t = iso8601_at(s, at)->0;
    assert(s.subrange(at, at + 20) =~= s.subrange(at, at + 4) + seq!['-'] + s.subrange(
        at + 5,
        at + 7,
    ) + seq!['-'] + s.subrange(at + 8, at + 10) + seq!['T'] + s.subrange(at + 11, at + 13) + seq![
        ':',
    ] + s.subrange(at + 14, at + 16) + seq![':'] + s.subrange(at + 17, at + 19) + seq!['Z']);
}

/// A line that writes a frame is the parts of the frame in a row: the
/// priority between `<` and `>`, which is 8 times the code of the facility
/// and the code of the severity, the timestamp, and after one space each
/// the host name and the application, the process id in square brackets, a
/// colon, a space and the message.
pub proof fn lemma_frame_is_its_parts(line: Seq<char>)
    requires
        frame_of(line) is Some,
    ensures
        ({
            let frame = frame_of(line)->0;
            let digits = line.subrange(1, digit_run(line, 1));
            &&& digits.len() > 0
            &&& all_digits(digits)
            &&& decimal(digits) == frame.facility.code() * 8 + frame.severity.code()
            &&& line == frame_text(digits, frame)
        }),
{
    let frame = frame_of(line)->0;
    let p_end = digit_run(line, 1);
    let digits = line.subrange(1, p_end);
    let stamp_at = p_end + 1;
    lemma_digit_run(line, 1);
    lemma_frame_priority(line);
    lemma_iso8601_is_written(line, stamp_at);
    let host_at = stamp_at + 21;
    lemma_token_is_written(line, host_at, ' ');
    let (hostname, host_end) = optional_token(line, host_at, ' ')->Some_0;
    let app_at = host_end + 1;
    lemma_find(line, '[', app_at);
    let app_end = find(line, '[', app_at);
    lemma_token_is_written(line, app_end + 1, ']');
    let (procid, pid_end) = optional_token(line, app_end + 1, ']')->Some_0;
    assert(line.subrange(pid_end, pid_end + 3) == seq![']', ':', ' ']);
    assert(line =~= seq!['<'] + digits + seq!['>'] + line.subrange(stamp_at, stamp_at + 20) + seq![
        ' ',
    ] + line.subrange(host_at, host_end) + seq![' '] + line.subrange(app_at, app_end) + seq!['[']
        + line.subrange(app_end + 1, pid_end) + line.subrange(pid_end, pid_end + 3) + line.skip(
        pid_end + 3,
    ));
}

} // verus!
