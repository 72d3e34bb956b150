use vstd::prelude::*;
use crate::models::{HttpResponse, HttpResponseHeader, HttpResponseState};

verus! {

/// Where a send stands.
#[derive(Debug, Clone, Copy, PartialEq, Eq, Structural)]
pub enum Phase {
    /// The request is on its way; no headers came back yet.
    AwaitingHeaders,
    /// Headers came back; the body is being written to its file.
    Streaming,
    /// The record is closed; nothing changes it any more.
    Finished,
}

/// Protocol version of a response.
#[derive(Debug, Clone, Copy, PartialEq, Eq, Structural)]
pub enum HttpVersion {
    Http09,
    Http10,
    Http11,
    Http2,
    Http3,
    Other,
}

pub open spec fn version_text(v: HttpVersion) -> Option<Seq<char>> {
    match v {
        HttpVersion::Http09 => Some("HTTP/0.9"@),
        HttpVersion::Http10 => Some("HTTP/1.0"@),
        HttpVersion::Http11 => Some("HTTP/1.1"@),
        HttpVersion::Http2 => Some("HTTP/2"@),
        HttpVersion::Http3 => Some("HTTP/3"@),
        HttpVersion::Other => None,
    }
}

/// How a response's protocol version is recorded.
pub fn version_label(v: HttpVersion) -> (r: Option<String>)
    ensures
        match r {
            Some(s) => version_text(v) == Some(s@),
            None => version_text(v) is None,
        },
{
    proof {
        reveal_strlit("HTTP/0.9");
        reveal_strlit("HTTP/1.0");
        reveal_strlit("HTTP/1.1");
        reveal_strlit("HTTP/2");
        reveal_strlit("HTTP/3");
    }
    match v {
        HttpVersion::Http09 => Some("HTTP/0.9".to_owned()),
        HttpVersion::Http10 => Some("HTTP/1.0".to_owned()),
        HttpVersion::Http11 => Some("HTTP/1.1".to_owned()),
        HttpVersion::Http2 => Some("HTTP/2".to_owned()),
        HttpVersion::Http3 => Some("HTTP/3".to_owned()),
        HttpVersion::Other => None,
    }
}

/// What the transport reports when the response headers arrive.
#[derive(Debug, Clone)]
pub struct Connection {
    pub body_path: String,
    pub elapsed_headers: i32,
    pub status: i32,
    pub status_reason: Option<String>,
    pub headers: Vec<HttpResponseHeader>,
    pub request_headers: Vec<HttpResponseHeader>,
    pub url: String,
    pub remote_addr: Option<String>,
    pub version: Option<String>,
    /// The body length that the response declares, if it declares one.
    pub declared_length: Option<u64>,
}

/// What happens to a send.
#[derive(Debug, Clone)]
pub enum Event {
    /// A step failed with this message: rendering, the URL, the body, authentication,
    /// the network, or reading or writing the body.
    Failed(String),
    /// The caller cancelled; carries the record as storage holds it, if it holds one.
    Cancelled(Option<HttpResponse>),
    /// The response headers arrived.
    Connected(Connection),
    /// A chunk of `len` bytes of body arrived, `elapsed` milliseconds after the start.
    Chunk { len: usize, elapsed: i32 },
    /// The body ended.
    BodyEnded,
}

/// What the caller does after a step.
#[derive(Debug, Clone, Copy, PartialEq, Eq, Structural)]
pub enum Action {
    /// Store the record.
    Persist,
    /// Append the chunk to the body file, then store the record.
    WriteChunk,
    /// Nothing: the event does not apply.
    Nothing,
}

/// One send: the record, where the send stands, and the body bytes written so far.
#[derive(Debug, Clone)]
pub struct Exchange {
    pub response: HttpResponse,
    pub phase: Phase,
    pub written: usize,
    pub declared_length: Option<u64>,
}

/// A send as the laws see it: the send with the record's error cleared, and
/// the error's text.
pub type SendModel = (Exchange, Option<Seq<char>>);

pub open spec fn model(x: Exchange) -> SendModel {
    (
        Exchange { response: HttpResponse { error: None, ..x.response }, ..x },
        match x.response.error {
            Some(m) => Some(m@),
            None => None,
        },
    )
}

/// The error of a send that was cancelled before its headers arrived.
pub open spec fn cancelled_message() -> Seq<char> {
    "Request was cancelled"@
}

/// The error of a send cancelled while streaming whose record storage does not hold.
pub open spec fn ephemeral_cancelled_message() -> Seq<char> {
    "Ephemeral request was cancelled"@
}

/// `r`, closed.
pub open spec fn closed(r: HttpResponse) -> HttpResponse {
    HttpResponse { state: HttpResponseState::Closed, ..r }
}

/// The final content length: the declared one, else the bytes written.
pub open spec fn final_length(declared: Option<u64>, written: usize) -> i32 {
    match declared {
        Some(l) => l as i32,
        None => written as i32,
    }
}

/// `x`'s record closed with its final content length.
pub open spec fn finished(x: Exchange) -> Exchange {
    Exchange {
        response: HttpResponse {
            content_length: Some(final_length(x.declared_length, x.written)),
            state: HttpResponseState::Closed,
            ..x.response
        },
        phase: Phase::Finished,
        ..x
    }
}

/// `r` with what the response headers tell.
pub open spec fn connected(r: HttpResponse, c: Connection) -> HttpResponse {
    HttpResponse {
        body_path: Some(c.body_path),
        elapsed_headers: c.elapsed_headers,
        status: c.status,
        status_reason: c.status_reason,
        headers: c.headers,
        request_headers: c.request_headers,
        url: c.url,
        remote_addr: c.remote_addr,
        version: c.version,
        state: HttpResponseState::Connected,
        ..r
    }
}

/// Whether `e` ends a send that stands at `x`.
pub open spec fn ends_send(x: Exchange, e: Event) -> bool {
    match e {
        Event::Failed(_) | Event::Cancelled(_) => true,
        Event::BodyEnded => x.phase is Streaming,
        _ => false,
    }
}

/// Whether `step` may take `e` at `x`: the bytes written must stay countable.
pub open spec fn can_step(x: Exchange, e: Event) -> bool {
    (x.phase is Streaming && e is Chunk) ==> x.written + e->len <= usize::MAX
}

/// The send after event `e`.
pub open spec fn next(m: SendModel, e: Event) -> SendModel {
    let (x, err) = m;
    match x.phase {
        Phase::Finished => m,
        Phase::AwaitingHeaders => match e {
            Event::Failed(msg) => (
                Exchange { response: closed(x.response), phase: Phase::Finished, ..x },
                Some(msg@),
            ),
            Event::Cancelled(_) => (
                Exchange { response: closed(x.response), phase: Phase::Finished, ..x },
                Some(cancelled_message()),
            ),
            Event::Connected(c) => (
                Exchange {
                    response: connected(x.response, c),
                    phase: Phase::Streaming,
                    written: 0,
                    declared_length: c.declared_length,
                },
                err,
            ),
            _ => m,
        },
        Phase::Streaming => match e {
            Event::Failed(msg) => (finished(x), Some(msg@)),
            Event::Cancelled(Some(r)) => (
                Exchange {
                    response: HttpResponse { error: None, ..closed(r) },
                    phase: Phase::Finished,
                    ..x
                },
                match r.error {
                    Some(s) => Some(s@),
                    None => None,
                },
            ),
            Event::Cancelled(None) => (
                Exchange { response: closed(x.response), phase: Phase::Finished, ..x },
                Some(ephemeral_cancelled_message()),
            ),
            Event::Chunk { len, elapsed } => (
                Exchange {
                    response: HttpResponse {
                        elapsed,
                        content_length: Some((x.written + len) as usize as i32),
                        ..x.response
                    },
                    written: (x.written + len) as usize,
                    ..x
                },
                err,
            ),
            Event::BodyEnded => (finished(x), err),
            Event::Connected(_) => m,
        },
    }
}

/// What the caller does after event `e` at `x`.
pub open spec fn action(x: Exchange, e: Event) -> Action {
    match x.phase {
        Phase::Finished => Action::Nothing,
        Phase::AwaitingHeaders => match e {
            Event::Failed(_) | Event::Cancelled(_) | Event::Connected(_) => Action::Persist,
            _ => Action::Nothing,
        },
        Phase::Streaming => match e {
            Event::Chunk { .. } => Action::WriteChunk,
            Event::Connected(_) => Action::Nothing,
            _ => Action::Persist,
        },
    }
}

impl Exchange {
    /// A send of `response` that waits for its headers.
    pub fn new(response: HttpResponse) -> (r: Exchange)
        ensures
            r.response == response,
            r.phase == Phase::AwaitingHeaders,
            r.written == 0,
            r.declared_length is None,
            closes_when_finished(model(r)),
    {
        Exchange { response, phase: Phase::AwaitingHeaders, written: 0, declared_length: None }
    }

    /// Closes the record with its final content length.
    fn finish(&mut self)
        ensures
            *final(self) == finished(*old(self)),
    {
        let length: i32 = match self.declared_length {
            Some(l) => #[verifier::truncate] (l as i32),
            None => #[verifier::truncate] (self.written as i32),
        };
        self.response.content_length = Some(length);
        self.response.state = HttpResponseState::Closed;
        self.phase = Phase::Finished;
    }

    /// Takes event `e` and says what the caller does next.
    pub fn step(&mut self, e: Event) -> (a: Action)
        requires
            can_step(*old(self), e),
        ensures
            model(*final(self)) == next(model(*old(self)), e),
            a == action(*old(self), e),
    {
        proof {
            reveal_strlit("Request was cancelled");
            reveal_strlit("Ephemeral request was cancelled");
        }
        match self.phase {
            Phase::Finished => Action::Nothing,
            Phase::AwaitingHeaders => match e {
                Event::Failed(msg) => {
                    self.response.error = Some(msg);
                    self.response.state = HttpResponseState::Closed;
                    self.phase = Phase::Finished;
                    Action::Persist
                },
                Event::Cancelled(_) => {
                    self.response.error = Some("Request was cancelled".to_owned());
                    self.response.state = HttpResponseState::Closed;
                    self.phase = Phase::Finished;
                    Action::Persist
                },
                Event::Connected(c) => {
                    self.response.body_path = Some(c.body_path);
                    self.response.elapsed_headers = c.elapsed_headers;
                    self.response.status = c.status;
                    self.response.status_reason = c.status_reason;
                    self.response.headers = c.headers;
                    self.response.request_headers = c.request_headers;
                    self.response.url = c.url;
                    self.response.remote_addr = c.remote_addr;
                    self.response.version = c.version;
                    self.response.state = HttpResponseState::Connected;
                    self.phase = Phase::Streaming;
                    self.written = 0;
                    self.declared_length = c.declared_length;
                    Action::Persist
                },
                _ => Action::Nothing,
            },
            Phase::Streaming => match e {
                Event::Failed(msg) => {
                    self.response.error = Some(msg);
                    self.finish();
                    Action::Persist
                },
                Event::Cancelled(Some(r)) => {
                    self.response = r;
                    self.response.state = HttpResponseState::Closed;
                    self.phase = Phase::Finished;
                    Action::Persist
                },
                Event::Cancelled(None) => {
                    self.response.error = Some("Ephemeral request was cancelled".to_owned());
                    self.response.state = HttpResponseState::Closed;
                    self.phase = Phase::Finished;
                    Action::Persist
                },
                Event::Chunk { len, elapsed } => {
                    self.written = self.written + len;
                    self.response.elapsed = elapsed;
                    self.response.content_length = Some(#[verifier::truncate] (self.written as i32));
                    Action::WriteChunk
                },
                Event::BodyEnded => {
                    self.finish();
                    Action::Persist
                },
                Event::Connected(_) => Action::Nothing,
            },
        }
    }
}

/// The send after events `es`, in order.
pub open spec fn run(m: SendModel, es: Seq<Event>) -> SendModel
    decreases es.len(),
{
    if es.len() == 0 {
        m
    } else {
        next(run(m, es.drop_last()), es.last())
    }
}

/// A finished send holds a closed record.
pub open spec fn closes_when_finished(m: SendModel) -> bool {
    m.0.phase is Finished ==> m.0.response.state == HttpResponseState::Closed
}

/// Bytes in the chunks among `es`.
pub open spec fn chunk_total(es: Seq<Event>) -> int
    decreases es.len(),
{
    if es.len() == 0 {
        0
    } else {
        chunk_total(es.drop_last()) + match es.last() {
            Event::Chunk { len, .. } => len as int,
            _ => 0,
        }
    }
}

/// Every event of `es` is a chunk.
pub open spec fn all_chunks(es: Seq<Event>) -> bool {
    forall|k: int| 0 <= k < es.len() ==> #[trigger] es[k] is Chunk
}

proof fn lemma_finished_stays(m: SendModel, es: Seq<Event>)
    requires
        m.0.phase is Finished,
    ensures
        run(m, es) == m,
    decreases es.len(),
{
    if es.len() > 0 {
        lemma_finished_stays(m, es.drop_last());
    }
}

proof fn lemma_closes_kept(m: SendModel, es: Seq<Event>)
    requires
        closes_when_finished(m),
    ensures
        closes_when_finished(run(m, es)),
    decreases es.len(),
{
    if es.len() > 0 {
        lemma_closes_kept(m, es.drop_last());
    }
}

proof fn lemma_run_append(m: SendModel, a: Seq<Event>, b: Seq<Event>)
    ensures
        run(m, a + b) == run(run(m, a), b),
    decreases b.len(),
{
    if b.len() == 0 {
        assert(a + b =~= a);
    } else {
        assert((a + b).drop_last() =~= a + b.drop_last());
        lemma_run_append(m, a, b.drop_last());
    }
}

proof fn lemma_chunks_counted(m: SendModel, es: Seq<Event>)
    requires
        m.0.phase is Streaming,
        all_chunks(es),
        m.0.written + chunk_total(es) <= usize::MAX,
    ensures
        run(m, es).0.phase is Streaming,
        run(m, es).0.written == m.0.written + chunk_total(es),
        run(m, es).0.declared_length == m.0.declared_length,
        chunk_total(es) >= 0,
    decreases es.len(),
{
    if es.len() > 0 {
        assert(all_chunks(es.drop_last())) by {
            assert forall|k: int| 0 <= k < es.drop_last().len() implies #[trigger] es.drop_last()[k] is Chunk by {
                assert(es.drop_last()[k] == es[k]);
            }
        }
        assert(es.last() is Chunk);
        lemma_chunks_counted(m, es.drop_last());
    }
}

/// A send closes its record whatever happens: once an event ends it (a failure,
/// a cancellation, or the end of the body), its record is `Closed` and stays so
/// through every later event.
pub proof fn send_ends_closed(x: Exchange, es: Seq<Event>, i: int)
    requires
        closes_when_finished(model(x)),
        0 <= i < es.len(),
        ends_send(run(model(x), es.take(i)).0, es[i]),
    ensures
        run(model(x), es).0.phase is Finished,
        run(model(x), es).0.response.state == HttpResponseState::Closed,
{
    let before = run(model(x), es.take(i));
    lemma_closes_kept(model(x), es.take(i));
    assert(es.take(i + 1).drop_last() =~= es.take(i));
    let after = run(model(x), es.take(i + 1));
    if !(before.0.phase is Finished) {
        assert(after.0.phase is Finished);
        assert(after.0.response.state == HttpResponseState::Closed);
    } else {
        lemma_finished_stays(before, seq![es[i]]);
        assert(after == next(before, es[i]));
    }
    assert(es =~= es.take(i + 1) + es.skip(i + 1));
    lemma_run_append(model(x), es.take(i + 1), es.skip(i + 1));
    lemma_finished_stays(after, es.skip(i + 1));
}

/// When the response declares no length, a send that connects, takes chunks and
/// ends writes every chunk and records as its content length the number of
/// body bytes written.
pub proof fn length_is_bytes_written(x: Exchange, c: Connection, chunks: Seq<Event>)
    requires
        x.phase is AwaitingHeaders,
        c.declared_length is None,
        all_chunks(chunks),
        chunk_total(chunks) <= i32::MAX,
    ensures
        ({
            let end = run(model(x), seq![Event::Connected(c)] + chunks + seq![Event::BodyEnded]);
            &&& end.0.written == chunk_total(chunks)
            &&& end.0.response.content_length == Some(chunk_total(chunks) as i32)
            &&& end.0.response.state == HttpResponseState::Closed
        }),
        forall|k: int|
            0 <= k < chunks.len() ==> action(
                run(model(x), seq![Event::Connected(c)] + chunks.take(k)).0,
                #[trigger] chunks[k],
            ) == Action::WriteChunk,
{
    let m0 = model(x);
    let m1 = next(m0, Event::Connected(c));
    assert(run(m0, seq![Event::Connected(c)]) == m1) by {
        assert(seq![Event::Connected(c)].drop_last() =~= Seq::<Event>::empty());
        assert(run(m0, Seq::<Event>::empty()) == m0);
        assert(seq![Event::Connected(c)].last() == Event::Connected(c));
    }
    lemma_chunks_counted(m1, chunks);
    lemma_run_append(m0, seq![Event::Connected(c)], chunks);
    let s = seq![Event::Connected(c)] + chunks;
    assert((s + seq![Event::BodyEnded]).drop_last() =~= s);
    assert forall|k: int| 0 <= k < chunks.len() implies action(
        run(m0, seq![Event::Connected(c)] + chunks.take(k)).0,
        #[trigger] chunks[k],
    ) == Action::WriteChunk by {
        lemma_chunk_written(m0, c, chunks, k);
    }
}

proof fn lemma_chunk_written(m0: SendModel, c: Connection, chunks: Seq<Event>, k: int)
    requires
        m0.0.phase is AwaitingHeaders,
        all_chunks(chunks),
        chunk_total(chunks) <= i32::MAX,
        0 <= k < chunks.len(),
    ensures
        action(run(m0, seq![Event::Connected(c)] + chunks.take(k)).0, chunks[k])
            == Action::WriteChunk,
{
    let m1 = next(m0, Event::Connected(c));
    assert(run(m0, seq![Event::Connected(c)]) == m1) by {
        assert(seq![Event::Connected(c)].drop_last() =~= Seq::<Event>::empty());
        assert(run(m0, Seq::<Event>::empty()) == m0);
        assert(seq![Event::Connected(c)].last() == Event::Connected(c));
    }
    assert(all_chunks(chunks.take(k))) by {
        assert forall|j: int| 0 <= j < chunks.take(k).len() implies #[trigger] chunks.take(k)[j] is Chunk by {
            assert(chunks.take(k)[j] == chunks[j]);
        }
    }
    lemma_chunk_total_prefix(chunks, k);
    lemma_chunks_counted(m1, chunks);
    lemma_chunks_counted(m1, chunks.take(k));
    lemma_run_append(m0, seq![Event::Connected(c)], chunks.take(k));
    assert(chunks[k] is Chunk);
}

proof fn lemma_chunk_total_prefix(es: Seq<Event>, k: int)
    requires
        0 <= k <= es.len(),
        all_chunks(es),
    ensures
        chunk_total(es.take(k)) <= chunk_total(es),
    decreases es.len() - k,
{
    if k < es.len() {
        assert(es.take(k + 1).drop_last() =~= es.take(k));
        assert(es.take(k + 1).last() is Chunk);
        lemma_chunk_total_prefix(es, k + 1);
    } else {
        assert(es.take(k) =~= es);
    }
}

/// A send cancelled before its headers arrive is closed with the cancellation
/// error, and no later event makes its record `Connected` or changes its error.
pub proof fn cancel_before_headers(x: Exchange, stored: Option<HttpResponse>, es: Seq<Event>)
    requires
        x.phase is AwaitingHeaders,
    ensures
        forall|k: int|
            0 <= k <= es.len() ==> {
                let m = #[trigger] run(next(model(x), Event::Cancelled(stored)), es.take(k));
                &&& m.0.response.state == HttpResponseState::Closed
                &&& m.1 == Some(cancelled_message())
            },
{
    let m = next(model(x), Event::Cancelled(stored));
    assert forall|k: int| 0 <= k <= es.len() implies {
        let r = #[trigger] run(m, es.take(k));
        &&& r.0.response.state == HttpResponseState::Closed
        &&& r.1 == Some(cancelled_message())
    } by {
        lemma_finished_stays(m, es.take(k));
    }
}

/// Once a send is cancelled while its body streams, no later event has a chunk
/// written, and the bytes counted stay those written before the cancellation.
pub proof fn cancel_stops_body(x: Exchange, stored: Option<HttpResponse>, es: Seq<Event>)
    requires
        x.phase is Streaming,
    ensures
        forall|k: int|
            0 <= k < es.len() ==> action(
                run(next(model(x), Event::Cancelled(stored)), es.take(k)).0,
                #[trigger] es[k],
            ) == Action::Nothing,
        run(next(model(x), Event::Cancelled(stored)), es).0.written == x.written,
        run(next(model(x), Event::Cancelled(stored)), es).0.response.state
            == HttpResponseState::Closed,
{
    let m = next(model(x), Event::Cancelled(stored));
    assert forall|k: int| 0 <= k < es.len() implies action(
        run(m, es.take(k)).0,
        #[trigger] es[k],
    ) == Action::Nothing by {
        lemma_finished_stays(m, es.take(k));
    }
    lemma_finished_stays(m, es);
}

} // verus!
