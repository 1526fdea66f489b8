//! From the lines of an access log to the batches of events that are
//! loaded into the warehouse.
//!
//! Each line is a transport frame whose payload writes one event. A line
//! that writes none is passed over, with the reason: it never stops the
//! run. The events are grouped by their kind and each group is cut into
//! batches, in the order of the lines.

use vstd::prelude::*;
use vstd::slice::slice_subrange;
use vstd::utf8::{decode_utf8, valid_utf8};
use crate::batch::{batch_views, chunks, is_chunked, joined, lemma_chunks_keep_order};
use crate::events::{
    event_of, event_views, lemma_event_has_json, Event, EventKind, EventParseError, EventView,
};
use crate::syslog::frame_of;
use crate::text::{find, is_blank_line, is_blank_text, lemma_find, lemma_find_skip};
use crate::ua::UserAgentParser;

pub mod batch;
pub mod bigquery;
pub mod events;
pub mod json;
pub mod syslog;
pub mod text;
pub mod timestamp;
pub mod ua;
pub mod utils;

pub use bigquery::BigQuery;

verus! {

/// The largest number of events in one batch.
pub const BATCH_SIZE: usize = 500;

/// Why a line gave no event.
#[derive(Debug, Clone, Copy, PartialEq, Eq, Structural)]
pub enum Discard {
    /// The line is no text in UTF-8.
    Undecodable,
    /// The line is empty, or holds nothing but space.
    Blank,
    /// The line is no transport frame.
    Frame,
    /// The user agent of the event is one whose requests are not counted.
    Ignored,
    /// No rule answers the user agent of the event.
    UnknownAgent,
    /// The payload of the frame is malformed.
    Event,
}

/// How loud the report of a line that gave no event is to be.
#[derive(Debug, Clone, Copy, PartialEq, Eq, Structural)]
pub enum Level {
    Trace,
    Warning,
    Error,
}

impl Discard {
    /// How loud the report is to be: a line that cannot be read at all is
    /// a warning, an event that is ignored is a trace, and everything else
    /// is an error.
    pub open spec fn spec_level(self) -> Level {
        match self {
            Discard::Undecodable | Discard::Blank => Level::Warning,
            Discard::Ignored => Level::Trace,
            Discard::Frame | Discard::UnknownAgent | Discard::Event => Level::Error,
        }
    }

    /// How loud the report is to be.
    pub fn level(self) -> (r: Level)
        ensures
            r == self.spec_level(),
    {
        match self {
            Discard::Undecodable => Level::Warning,
            Discard::Blank => Level::Warning,
            Discard::Ignored => Level::Trace,
            Discard::Frame => Level::Error,
            Discard::UnknownAgent => Level::Error,
            Discard::Event => Level::Error,
        }
    }
}

/// A line that gave no event: its index among the lines, and the reason.
#[derive(Debug, Clone, Copy, PartialEq, Eq, Structural)]
pub struct Discarded {
    pub line: usize,
    pub reason: Discard,
}

/// Events of one kind, of which there are at most [`BATCH_SIZE`].
#[derive(Debug, Clone, PartialEq, Eq)]
pub struct Batch {
    pub kind: EventKind,
    pub events: Vec<Event>,
}

/// What a run gives: the batches, and the lines that gave no event.
#[derive(Debug, Clone, PartialEq, Eq)]
pub struct Processed {
    pub batches: Vec<Batch>,
    pub discards: Vec<Discarded>,
}

/// The event that a line writes, or the reason for which it writes none.
pub open spec fn line_event(line: Seq<char>) -> Result<EventView, Discard> {
    if is_blank_text(line) {
        Err(Discard::Blank)
    } else {
        match frame_of(line) {
            None => Err(Discard::Frame),
            Some(frame) => match event_of(frame.message) {
                Ok(Some(event)) => Ok(event),
                Ok(None) => Err(Discard::Ignored),
                Err(EventParseError::InvalidUserAgent) => Err(Discard::UnknownAgent),
                Err(_) => Err(Discard::Event),
            },
        }
    }
}

/// The event that the bytes of a line write.
pub open spec fn piece_event(piece: Seq<u8>) -> Result<EventView, Discard> {
    if valid_utf8(piece) {
        line_event(decode_utf8(piece))
    } else {
        Err(Discard::Undecodable)
    }
}

/// The events among the outcomes of a run of lines, in the order of the
/// lines.
pub open spec fn kept(outcomes: Seq<Result<EventView, Discard>>) -> Seq<EventView>
    decreases outcomes.len(),
{
    if outcomes.len() == 0 {
        Seq::empty()
    } else {
        match outcomes.last() {
            Ok(event) => kept(outcomes.drop_last()).push(event),
            Err(_) => kept(outcomes.drop_last()),
        }
    }
}

/// The lines that gave no event, each with its index and the reason, in
/// the order of the lines.
pub open spec fn dropped(outcomes: Seq<Result<EventView, Discard>>) -> Seq<Discarded>
    decreases outcomes.len(),
{
    if outcomes.len() == 0 {
        Seq::empty()
    } else {
        match outcomes.last() {
            Ok(_) => dropped(outcomes.drop_last()),
            Err(reason) => dropped(outcomes.drop_last()).push(
                Discarded { line: (outcomes.len() - 1) as usize, reason },
            ),
        }
    }
}

/// The events of `events` that are of the given kind, in their order.
pub open spec fn of_kind(events: Seq<EventView>, kind: EventKind) -> Seq<EventView>
    decreases events.len(),
{
    if events.len() == 0 {
        Seq::empty()
    } else if events.last().kind() == kind {
        of_kind(events.drop_last(), kind).push(events.last())
    } else {
        of_kind(events.drop_last(), kind)
    }
}

/// The pieces into which the line feeds cut a buffer. A buffer without a
/// line feed is one piece, and a buffer that ends in one has an empty
/// piece at its end.
pub open spec fn pieces(buffer: Seq<u8>) -> Seq<Seq<u8>>
    decreases buffer.len(),
{
    let end = find(buffer, 10u8, 0);
    if end < 0 || end >= buffer.len() {
        seq![buffer]
    } else {
        seq![buffer.take(end)] + pieces(buffer.skip(end + 1))
    }
}

/// The outcomes of the lines of a text.
pub open spec fn line_outcomes(lines: Seq<Seq<char>>) -> Seq<Result<EventView, Discard>> {
    lines.map_values(|line: Seq<char>| line_event(line))
}

/// The outcomes of the pieces of a buffer.
pub open spec fn piece_outcomes(buffer: Seq<u8>) -> Seq<Result<EventView, Discard>> {
    pieces(buffer).map_values(|piece: Seq<u8>| piece_event(piece))
}

/// The lists of events that a list of batches holds.
pub open spec fn batch_events(batches: Seq<Batch>) -> Seq<Seq<EventView>> {
    batches.map_values(|b: Batch| event_views(b.events@))
}

/// Whether `batches` are the batches of `events`: for each kind, the
/// events of that kind, in their order, cut into batches of
/// [`BATCH_SIZE`].
pub open spec fn are_batches_of(events: Seq<EventView>, batches: Seq<Batch>) -> bool {
    is_chunked(of_kind(events, EventKind::SimpleRequest), BATCH_SIZE as int, batch_events(batches))
        && forall|i: int|
        0 <= i < batches.len() ==> (#[trigger] batches[i]).kind == EventKind::SimpleRequest
}

/// The characters of a list of lines.
pub open spec fn line_texts(lines: Seq<&str>) -> Seq<Seq<char>> {
    lines.map_values(|line: &str| line@)
}

/// What `flate2::read::GzDecoder` reads from `data` until its end: the
/// bytes that were compressed; `None` where reading fails.
pub uninterp spec fn gzip_contents(data: Seq<u8>) -> Option<Seq<u8>>;

/// The bytes of an optional buffer.
pub open spec fn bytes_of(buffer: Option<Vec<u8>>) -> Option<Seq<u8>> {
    match buffer {
        Some(b) => Some(b@),
        None => None,
    }
}

/// Believed of `flate2::read::GzDecoder`, read to its end: what comes out
/// depends on the bytes that go in alone.
#[verifier::external_body]
fn gunzip(data: &[u8]) -> (r: Option<Vec<u8>>)
    ensures
        bytes_of(r) == gzip_contents(data@),
{
    let mut contents = Vec::new();
    match std::io::Read::read_to_end(&mut flate2::read::GzDecoder::new(data), &mut contents) {
        Ok(_) => Some(contents),
        Err(_) => None,
    }
}

/// Believed of `std::str::from_utf8`: it accepts exactly the bytes that are
/// UTF-8, and gives the text that they write.
#[verifier::external_body]
fn text_in(bytes: &[u8]) -> (r: Option<&str>)
    ensures
        match r {
            Some(text) => valid_utf8(bytes@) && text@ == decode_utf8(bytes@),
            None => !valid_utf8(bytes@),
        },
{
    std::str::from_utf8(bytes).ok()
}

/// Reads the event that a line writes.
pub fn read_line(parser: &UserAgentParser, line: &str) -> (r: Result<Event, Discard>)
    ensures
        match r {
            Ok(event) => line_event(line@) == Ok::<EventView, Discard>(event@),
            Err(reason) => line_event(line@) == Err::<EventView, Discard>(reason),
        },
{
    if is_blank_line(line) {
        return Err(Discard::Blank);
    }
    let frame = match crate::syslog::parse(line) {
        Ok(frame) => frame,
        Err(_) => {
            return Err(Discard::Frame);
        },
    };
    match crate::events::parse(parser, frame.message.as_str()) {
        Ok(Some(event)) => Ok(event),
        Ok(None) => Err(Discard::Ignored),
        Err(EventParseError::InvalidUserAgent) => Err(Discard::UnknownAgent),
        Err(_) => Err(Discard::Event),
    }
}

/// Reads the event that the bytes of a line write.
pub fn read_piece(parser: &UserAgentParser, piece: &[u8]) -> (r: Result<Event, Discard>)
    ensures
        match r {
            Ok(event) => piece_event(piece@) == Ok::<EventView, Discard>(event@),
            Err(reason) => piece_event(piece@) == Err::<EventView, Discard>(reason),
        },
{
    match text_in(piece) {
        Some(line) => read_line(parser, line),
        None => Err(Discard::Undecodable),
    }
}

/// Where each piece of a buffer starts and ends.
pub fn split_lines(buffer: &[u8]) -> (ranges: Vec<(usize, usize)>)
    ensures
        ranges@.len() == pieces(buffer@).len(),
        forall|i: int|
            0 <= i < ranges@.len() ==> (#[trigger] ranges@[i]).0 <= ranges@[i].1 <= buffer@.len()
                && buffer@.subrange(ranges@[i].0 as int, ranges@[i].1 as int) == pieces(
                buffer@,
            )[i],
{
    let n = buffer.len();
    let mut ranges: Vec<(usize, usize)> = Vec::new();
    let mut start: usize = 0;
    let mut done = false;
    assert(buffer@.skip(0) =~= buffer@);
    while !done
        invariant
            n == buffer@.len(),
            start <= n,
            !done ==> pieces(buffer@).len() == ranges@.len() + pieces(
                buffer@.skip(start as int),
            ).len(),
            !done ==> forall|i: int|
                0 <= i < pieces(buffer@.skip(start as int)).len() ==> pieces(
                    buffer@,
                )[ranges@.len() + i] == #[trigger] pieces(buffer@.skip(start as int))[i],
            done ==> pieces(buffer@).len() == ranges@.len(),
            forall|i: int|
                0 <= i < ranges@.len() ==> (#[trigger] ranges@[i]).0 <= ranges@[i].1 <= n
                    && i < pieces(buffer@).len() && buffer@.subrange(
                    ranges@[i].0 as int,
                    ranges@[i].1 as int,
                ) == pieces(buffer@)[i],
        decreases n - start + (if done { 0int } else { 1int }),
    {
        let ghost rest = buffer@.skip(start as int);
        let ghost before = ranges@;
        let mut end: usize = start;
        while end < n && buffer[end] != 10u8
            invariant
                start <= end <= n,
                n == buffer@.len(),
                find(buffer@, 10u8, start as int) == find(buffer@, 10u8, end as int),
            decreases n - end,
        {
            end += 1;
        }
        proof {
            lemma_find_skip(buffer@, 10u8, start as int, 0);
            lemma_find(buffer@, 10u8, start as int);
        }
        ranges.push((start, end));
        if end >= n {
            proof {
                assert(pieces(rest) =~= seq![rest]);
                assert(rest =~= buffer@.subrange(start as int, end as int));
                assert(pieces(buffer@)[before.len() as int] == pieces(rest)[0]);
            }
            done = true;
        } else {
            proof {
                let tail = rest.skip(end - start + 1);
                assert(tail =~= buffer@.skip(end + 1));
                assert(pieces(rest) =~= seq![rest.take(end - start)] + pieces(tail));
                assert(rest.take(end - start) =~= buffer@.subrange(start as int, end as int));
                assert(pieces(buffer@)[before.len() as int] == pieces(rest)[0]);
                assert forall|i: int| 0 <= i < pieces(tail).len() implies pieces(
                    buffer@,
                )[ranges@.len() + i] == #[trigger] pieces(tail)[i] by {
                    assert(pieces(rest)[i + 1] == pieces(tail)[i]);
                    assert(pieces(buffer@)[before.len() as int + (i + 1)] == pieces(rest)[i + 1]);
                }
            }
            start = end + 1;
        }
    }
    ranges
}

/// The events of a list, all of them, grouped by their kind and cut into
/// batches.
pub fn batches(events: Vec<Event>) -> (r: Vec<Batch>)
    ensures
        are_batches_of(event_views(events@), r@),
{
    let ghost all = event_views(events@);
    let mut group: Vec<Event> = Vec::new();
    assert(all.take(0) =~= Seq::empty());
    assert(event_views(group@) =~= Seq::empty());
    for event in it: events
        invariant
            it.seq() == events@,
            all == event_views(events@),
            event_views(group@) == of_kind(all.take(it.index() as int), EventKind::SimpleRequest),
    {
        let ghost at = it.index() as int;
        let ghost before = event_views(group@);
        assert(all.take(at + 1).drop_last() =~= all.take(at));
        assert(all.take(at + 1).last() == event@);
        match event.kind() {
            EventKind::SimpleRequest => {
                group.push(event);
                assert(event_views(group@) =~= before.push(event@));
            },
        }
    }
    assert(all.take(events@.len() as int) =~= all);
    let ghost grouped = event_views(group@);
    let cut = chunks(group, BATCH_SIZE);
    let ghost cut_views = batch_views(cut@);
    let mut out: Vec<Batch> = Vec::new();
    for events in it: cut
        invariant
            it.seq() == cut@,
            out@.len() == it.index(),
            forall|i: int|
                0 <= i < out@.len() ==> (#[trigger] out@[i]).kind == EventKind::SimpleRequest
                    && out@[i].events == cut@[i],
    {
        out.push(Batch { kind: EventKind::SimpleRequest, events });
    }
    proof {
        assert(batch_events(out@).len() == cut@.len());
        assert forall|i: int| 0 <= i < out@.len() implies #[trigger] batch_events(out@)[i]
            == crate::batch::chunk(grouped, BATCH_SIZE as int, i) by {
            assert(batch_views(cut@)[i] == cut@[i]@);
            assert(cut@[i]@ == crate::batch::chunk(group@, BATCH_SIZE as int, i));
            lemma_event_views_of_chunk(group@, cut@[i]@, BATCH_SIZE as int, i);
        }
    }
    out
}

/// The values of a batch of events are the batch of their values.
proof fn lemma_event_views_of_chunk(events: Seq<Event>, part: Seq<Event>, size: int, i: int)
    requires
        part == crate::batch::chunk(events, size, i),
        0 <= i,
        0 < size,
    ensures
        event_views(part) == crate::batch::chunk(event_views(events), size, i),
{
    assert(0 <= i * size) by (nonlinear_arith)
        requires
            0 <= i,
            0 < size,
    ;
    assert(i * size <= (i + 1) * size) by (nonlinear_arith)
        requires
            0 <= i,
            0 < size,
    ;
    assert(event_views(part) =~= crate::batch::chunk(event_views(events), size, i));
}

/// Reads the events of the lines and cuts them into batches.
///
/// The batches hold the events of the lines that write one, in the order
/// of the lines; every other line is reported with its index and the
/// reason, and stops nothing.
pub fn process(parser: &UserAgentParser, lines: Vec<&str>) -> (r: Processed)
    ensures
        are_batches_of(kept(line_outcomes(line_texts(lines@))), r.batches@),
        r.discards@ == dropped(line_outcomes(line_texts(lines@))),
{
    let ghost outcomes = line_outcomes(line_texts(lines@));
    let mut events: Vec<Event> = Vec::new();
    let mut discards: Vec<Discarded> = Vec::new();
    let mut i: usize = 0;
    assert(outcomes.take(0) =~= Seq::empty());
    assert(event_views(events@) =~= Seq::empty());
    while i < lines.len()
        invariant
            i <= lines@.len(),
            outcomes == line_outcomes(line_texts(lines@)),
            event_views(events@) == kept(outcomes.take(i as int)),
            discards@ == dropped(outcomes.take(i as int)),
        decreases lines@.len() - i,
    {
        let ghost before = event_views(events@);
        assert(outcomes.take(i + 1).drop_last() =~= outcomes.take(i as int));
        assert(outcomes.take(i + 1).last() == line_event(lines@[i as int]@));
        match read_line(parser, lines[i]) {
            Ok(event) => {
                events.push(event);
                assert(event_views(events@) =~= before.push(event@));
            },
            Err(reason) => {
                discards.push(Discarded { line: i, reason });
            },
        }
        i += 1;
    }
    assert(outcomes.take(lines@.len() as int) =~= outcomes);
    Processed { batches: batches(events), discards }
}

/// Reads the events of a buffer of lines that line feeds part, and cuts
/// them into batches.
pub fn process_buffer(parser: &UserAgentParser, buffer: &[u8]) -> (r: Processed)
    ensures
        are_batches_of(kept(piece_outcomes(buffer@)), r.batches@),
        r.discards@ == dropped(piece_outcomes(buffer@)),
{
    let ghost outcomes = piece_outcomes(buffer@);
    let ranges = split_lines(buffer);
    let mut events: Vec<Event> = Vec::new();
    let mut discards: Vec<Discarded> = Vec::new();
    let mut i: usize = 0;
    assert(outcomes.take(0) =~= Seq::empty());
    assert(event_views(events@) =~= Seq::empty());
    while i < ranges.len()
        invariant
            i <= ranges@.len(),
            outcomes == piece_outcomes(buffer@),
            ranges@.len() == pieces(buffer@).len(),
            forall|j: int|
                0 <= j < ranges@.len() ==> (#[trigger] ranges@[j]).0 <= ranges@[j].1
                    <= buffer@.len() && buffer@.subrange(
                    ranges@[j].0 as int,
                    ranges@[j].1 as int,
                ) == pieces(buffer@)[j],
            event_views(events@) == kept(outcomes.take(i as int)),
            discards@ == dropped(outcomes.take(i as int)),
        decreases ranges@.len() - i,
    {
        let ghost before = event_views(events@);
        assert(outcomes.take(i + 1).drop_last() =~= outcomes.take(i as int));
        assert(outcomes.take(i + 1).last() == piece_event(pieces(buffer@)[i as int]));
        let (from, to) = ranges[i];
        match read_piece(parser, slice_subrange(buffer, from, to)) {
            Ok(event) => {
                events.push(event);
                assert(event_views(events@) =~= before.push(event@));
            },
            Err(reason) => {
                discards.push(Discarded { line: i, reason });
            },
        }
        i += 1;
    }
    assert(outcomes.take(ranges@.len() as int) =~= outcomes);
    Processed { batches: batches(events), discards }
}

/// Reads the events of a compressed log and cuts them into batches; `None`
/// where the bytes cannot be decompressed.
pub fn process_reader(parser: &UserAgentParser, data: &[u8]) -> (r: Option<Processed>)
    ensures
        match r {
            Some(run) => gzip_contents(data@) is Some && are_batches_of(
                kept(piece_outcomes(gzip_contents(data@)->0)),
                run.batches@,
            ) && run.discards@ == dropped(piece_outcomes(gzip_contents(data@)->0)),
            None => gzip_contents(data@) is None,
        },
{
    match gunzip(data) {
        Some(buffer) => Some(process_buffer(parser, buffer.as_slice())),
        None => None,
    }
}

/// The events of the first `k` lines are the first of the events of all
/// the lines.
pub proof fn lemma_kept_prefix(outcomes: Seq<Result<EventView, Discard>>, k: int)
    requires
        0 <= k <= outcomes.len(),
    ensures
        kept(outcomes.take(k)).len() <= kept(outcomes).len(),
        kept(outcomes.take(k)) == kept(outcomes).take(kept(outcomes.take(k)).len() as int),
    decreases outcomes.len() - k,
{
    if k == outcomes.len() {
        assert(outcomes.take(k) =~= outcomes);
        assert(kept(outcomes).take(kept(outcomes).len() as int) =~= kept(outcomes));
    } else {
        lemma_kept_prefix(outcomes, k + 1);
        assert(outcomes.take(k + 1).drop_last() =~= outcomes.take(k));
        let longer = kept(outcomes.take(k + 1));
        let shorter = kept(outcomes.take(k));
        assert(shorter =~= longer.take(shorter.len() as int));
        assert(shorter =~= kept(outcomes).take(shorter.len() as int));
    }
}

/// The events keep the order of their lines: the event of a line that
/// writes one stands, among the events, at the position that counts the
/// lines before it that write one.
pub proof fn lemma_kept_in_order(outcomes: Seq<Result<EventView, Discard>>, i: int)
    requires
        0 <= i < outcomes.len(),
        outcomes[i] is Ok,
    ensures
        kept(outcomes.take(i)).len() < kept(outcomes).len(),
        kept(outcomes)[kept(outcomes.take(i)).len() as int] == outcomes[i]->Ok_0,
{
    lemma_kept_prefix(outcomes, i + 1);
    assert(outcomes.take(i + 1).drop_last() =~= outcomes.take(i));
    assert(outcomes.take(i + 1).last() == outcomes[i]);
    let upto = kept(outcomes.take(i + 1));
    assert(upto[upto.len() - 1] == outcomes[i]->Ok_0);
    assert(kept(outcomes).take(upto.len() as int)[upto.len() - 1] == kept(outcomes)[upto.len()
        - 1]);
}

/// Every event is of the one kind that there is.
pub proof fn lemma_one_kind(events: Seq<EventView>)
    ensures
        of_kind(events, EventKind::SimpleRequest) == events,
    decreases events.len(),
{
    if events.len() > 0 {
        lemma_one_kind(events.drop_last());
        assert(events.drop_last().push(events.last()) =~= events);
    } else {
        assert(events =~= Seq::empty());
    }
}

/// The batches of a run hold the events of the run, all of them and in
/// their order, in batches of at most [`BATCH_SIZE`] events of which only
/// the last may hold fewer.
pub proof fn lemma_batches_hold_the_events(events: Seq<EventView>, batches: Seq<Batch>)
    requires
        are_batches_of(events, batches),
    ensures
        joined(batch_events(batches)) == events,
        forall|i: int|
            0 <= i < batches.len() ==> 0 < (#[trigger] batches[i]).events@.len() <= BATCH_SIZE,
        forall|i: int|
            0 <= i < batches.len() - 1 ==> (#[trigger] batches[i]).events@.len() == BATCH_SIZE,
{
    lemma_one_kind(events);
    lemma_chunks_keep_order(events, BATCH_SIZE as int, batch_events(batches));
    assert forall|i: int| 0 <= i < batches.len() implies 0 < (#[trigger] batches[i]).events@.len()
        <= BATCH_SIZE && (i < batches.len() - 1 ==> batches[i].events@.len() == BATCH_SIZE) by {
        assert(batch_events(batches)[i].len() == batches[i].events@.len());
    }
}

/// Every event of a run of lines can be written as JSON, so that every
/// event of a batch gives a row.
pub proof fn lemma_kept_events_have_json(lines: Seq<Seq<char>>, i: int)
    requires
        0 <= i < kept(line_outcomes(lines)).len(),
    ensures
        kept(line_outcomes(lines))[i].json() is Some,
    decreases lines.len(),
{
    let outcomes = line_outcomes(lines);
    if lines.len() > 0 {
        let before = lines.drop_last();
        assert(outcomes.drop_last() =~= line_outcomes(before));
        assert(outcomes.last() == line_event(lines.last()));
        if outcomes.last() is Ok && i == kept(outcomes).len() - 1 {
            lemma_event_has_json(frame_of(lines.last())->0.message);
        } else {
            lemma_kept_events_have_json(before, i);
        }
    }
}

} // verus!
