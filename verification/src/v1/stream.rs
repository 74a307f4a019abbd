//! The reader of a streamed response.
//!
//! The transport delivers the body in chunks of any size. Payloads are
//! separated by a blank line, that is by two newline bytes, and every payload
//! is one JSON document of the shape of a whole response. Where chunks end
//! means nothing: the reader keeps what has arrived and not yet been given
//! out, and gives out a payload once its closing blank line is there.
//!
//! A payload that cannot be decoded is reported for itself, and the reader
//! goes on with the next one. What is left when the transport ends, with no
//! blank line after it, is dropped and reported as a truncated stream.

use crate::v1::errors::{DecodeError, DecodeErrorView};
use crate::v1::json::{Json, JsonView};
use crate::v1::trusted::json_document;
use crate::v1::types::response_type::{response_from_json, GenerateContentResponse, ResponseView};
use vstd::prelude::*;

verus! {

/// The byte of which two in a row separate payloads.
pub const NEWLINE: u8 = 10;

/// Whether the two bytes from `at` on are the delimiter.
pub open spec fn delimiter_at(bytes: Seq<u8>, at: int) -> bool {
    0 <= at && at + 1 < bytes.len() && bytes[at] == NEWLINE && bytes[at + 1] == NEWLINE
}

/// Whether the first delimiter in `bytes` stands at `at`, so that the bytes
/// before `at` are the first payload.
pub open spec fn ends_payload(bytes: Seq<u8>, at: int) -> bool {
    delimiter_at(bytes, at) && forall|j: int| 0 <= j < at ==> !delimiter_at(bytes, j)
}

/// Whether `bytes` hold a whole payload, closed by a delimiter.
pub open spec fn has_payload(bytes: Seq<u8>) -> bool {
    exists|at: int| ends_payload(bytes, at)
}

/// Where the first payload of `bytes` ends, if they hold one.
pub open spec fn payload_end(bytes: Seq<u8>) -> int {
    choose|at: int| ends_payload(bytes, at)
}

/// The whole payloads that `bytes` hold, in order.
pub open spec fn frames(bytes: Seq<u8>) -> Seq<Seq<u8>>
    decreases bytes.len(),
{
    if has_payload(bytes) {
        let at = payload_end(bytes);
        seq![bytes.take(at)] + frames(bytes.skip(at + 2))
    } else {
        Seq::empty()
    }
}

/// What follows the last delimiter in `bytes`: the beginning of a payload
/// that is not closed yet.
pub open spec fn remainder(bytes: Seq<u8>) -> Seq<u8>
    decreases bytes.len(),
{
    if has_payload(bytes) {
        remainder(bytes.skip(payload_end(bytes) + 2))
    } else {
        bytes
    }
}

/// The first delimiter stands in one place only.
pub proof fn lemma_payload_end(bytes: Seq<u8>, at: int)
    requires
        ends_payload(bytes, at),
    ensures
        has_payload(bytes),
        payload_end(bytes) == at,
{
    let chosen = payload_end(bytes);
    assert(ends_payload(bytes, chosen));
    if chosen < at {
        assert(!delimiter_at(bytes, chosen));
    }
    if at < chosen {
        assert(!delimiter_at(bytes, at));
    }
}

/// Bytes without a delimiter hold no payload.
pub proof fn lemma_no_payload(bytes: Seq<u8>)
    requires
        forall|j: int| 0 <= j ==> !delimiter_at(bytes, j),
    ensures
        !has_payload(bytes),
        frames(bytes) == Seq::<Seq<u8>>::empty(),
        remainder(bytes) == bytes,
{
}

/// More bytes behind do not move the first delimiter.
pub proof fn lemma_payload_stays(bytes: Seq<u8>, more: Seq<u8>)
    requires
        has_payload(bytes),
    ensures
        ends_payload(bytes + more, payload_end(bytes)),
        (bytes + more).take(payload_end(bytes)) == bytes.take(payload_end(bytes)),
        (bytes + more).skip(payload_end(bytes) + 2) == bytes.skip(payload_end(bytes) + 2) + more,
{
    let at = payload_end(bytes);
    let all = bytes + more;
    assert(ends_payload(bytes, at));
    assert(delimiter_at(all, at));
    assert forall|j: int| 0 <= j < at implies !delimiter_at(all, j) by {
        assert(!delimiter_at(bytes, j));
        assert(all[j] == bytes[j]);
        assert(all[j + 1] == bytes[j + 1]);
    }
    assert(all.take(at) =~= bytes.take(at));
    assert(all.skip(at + 2) =~= bytes.skip(at + 2) + more);
}

/// Where a chunk ends means nothing: the payloads of bytes that arrive in
/// two pieces are those of the first piece, then those of what the first
/// piece left open followed by the second piece.
pub proof fn lemma_frames_of_pieces(first: Seq<u8>, second: Seq<u8>)
    ensures
        frames(first + second) == frames(first) + frames(remainder(first) + second),
        remainder(first + second) == remainder(remainder(first) + second),
    decreases first.len(),
{
    if has_payload(first) {
        let at = payload_end(first);
        lemma_payload_stays(first, second);
        lemma_payload_end(first + second, at);
        lemma_frames_of_pieces(first.skip(at + 2), second);
        let rest = first.skip(at + 2);
        assert(frames(first + second) == seq![first.take(at)] + frames(rest + second));
        assert(frames(first + second) =~= frames(first) + frames(remainder(first) + second));
    } else {
        assert(frames(first) + frames(first + second) =~= frames(first + second));
    }
}

/// Whether `bytes` can stand as a payload in front of a delimiter and be
/// found again: they hold no delimiter and do not end in a newline.
pub open spec fn is_payload(bytes: Seq<u8>) -> bool {
    forall|j: int| 0 <= j ==> !delimiter_at(bytes.push(NEWLINE), j)
}

/// The two bytes of the delimiter.
pub open spec fn delimiter() -> Seq<u8> {
    seq![NEWLINE, NEWLINE]
}

/// A payload, a delimiter and more bytes: the payload is the first frame,
/// and the rest is framed for itself.
pub proof fn lemma_frames_of_payload(payload: Seq<u8>, rest: Seq<u8>)
    requires
        is_payload(payload),
    ensures
        frames(payload + delimiter() + rest) == seq![payload] + frames(rest),
        remainder(payload + delimiter() + rest) == remainder(rest),
{
    let all = payload + delimiter() + rest;
    let at = payload.len() as int;
    assert(delimiter_at(all, at));
    assert forall|j: int| 0 <= j < at implies !delimiter_at(all, j) by {
        assert(!delimiter_at(payload.push(NEWLINE), j));
        assert(all[j] == payload.push(NEWLINE)[j]);
        assert(all[j + 1] == payload.push(NEWLINE)[j + 1]);
    }
    lemma_payload_end(all, at);
    assert(all.take(at) =~= payload);
    assert(all.skip(at + 2) =~= rest);
}


/// One decoded response of a stream.
pub type StreamEvent = GenerateContentResponse;

/// What one payload yields, given the JSON document that was read from it:
/// the response that the document denotes, and `MalformedEvent` where no
/// document was read or the document denotes no response.
pub open spec fn event_of_document(document: Option<JsonView>) -> Result<
    ResponseView,
    DecodeErrorView,
> {
    match document {
        Some(json) => match response_from_json(json) {
            Ok(response) => Ok(response),
            Err(_) => Err(DecodeErrorView::MalformedEvent),
        },
        None => Err(DecodeErrorView::MalformedEvent),
    }
}

/// What one payload yields.
pub open spec fn event_of(payload: Seq<u8>) -> Result<ResponseView, DecodeErrorView> {
    event_of_document(json_document(payload))
}

/// The mathematical value of what a payload yielded.
pub open spec fn event_view(outcome: Result<StreamEvent, DecodeError>) -> Result<
    ResponseView,
    DecodeErrorView,
> {
    match outcome {
        Ok(event) => Ok(event@),
        Err(error) => Err(error@),
    }
}

/// The mathematical value of a [`Json`] document that may be missing.
pub open spec fn document_view(document: Option<Json>) -> Option<JsonView> {
    match document {
        Some(json) => Some(json@),
        None => None,
    }
}

/// Decodes the event of a payload from the JSON document that was read from
/// it, with `None` for a payload from which none could be read.
pub fn event_from_document(document: Option<Json>) -> (outcome: Result<StreamEvent, DecodeError>)
    ensures
        event_view(outcome) == event_of_document(document_view(document)),
{
    match document {
        Some(json) => match GenerateContentResponse::decode(&json) {
            Ok(event) => Ok(event),
            Err(_) => Err(DecodeError::MalformedEvent),
        },
        None => Err(DecodeError::MalformedEvent),
    }
}

/// Decodes one payload of a stream.
pub fn decode_event(payload: &[u8]) -> (outcome: Result<StreamEvent, DecodeError>)
    ensures
        event_view(outcome) == event_of(payload@),
{
    event_from_document(Json::parse(payload))
}

/// What a payload yields where it yields an error.
pub proof fn lemma_event_error(payload: Seq<u8>)
    ensures
        event_of(payload) is Err ==> event_of(payload) == Err::<ResponseView, DecodeErrorView>(
            DecodeErrorView::MalformedEvent,
        ),
{
}

/// The three states of a reader.
#[derive(Debug, Clone, Copy, PartialEq, Eq)]
pub enum ReaderState {
    /// Nothing can be given out before the transport delivers more.
    AwaitingData,
    /// The next pull gives out an event or a failure.
    EmittingEvent,
    /// The stream is over and everything was given out.
    Closed,
}

/// What a pull on the reader gives.
#[derive(Debug, PartialEq, Eq)]
pub enum Step {
    /// The next payload, decoded or rejected, or the report that the stream
    /// was truncated.
    Event(Result<StreamEvent, DecodeError>),
    /// The reader waits for the next chunk, or for the end of the stream.
    NeedChunk,
    /// The stream is over.
    Done,
}

/// The mathematical value of a [`Step`].
pub enum StepView {
    Event(Result<ResponseView, DecodeErrorView>),
    NeedChunk,
    Done,
}

impl View for Step {
    type V = StepView;

    open spec fn view(&self) -> StepView {
        match self {
            Step::Event(outcome) => StepView::Event(event_view(*outcome)),
            Step::NeedChunk => StepView::NeedChunk,
            Step::Done => StepView::Done,
        }
    }
}

/// The mathematical value of a reader: the bytes that arrived and were not
/// given out yet, and whether the transport has ended.
pub struct ReaderView {
    pub pending: Seq<u8>,
    pub ended: bool,
}

/// The state of a reader.
pub open spec fn state_of(reader: ReaderView) -> ReaderState {
    if has_payload(reader.pending) {
        ReaderState::EmittingEvent
    } else if !reader.ended {
        ReaderState::AwaitingData
    } else if reader.pending.len() > 0 {
        ReaderState::EmittingEvent
    } else {
        ReaderState::Closed
    }
}

/// The reader after a pull, and what the pull gives.
///
/// A whole payload is taken from the front and its event given. Without one
/// the reader waits while the transport is open. After its end, bytes that
/// are left are dropped and reported once as a truncated stream; then the
/// reader is done.
pub open spec fn pull(reader: ReaderView) -> (ReaderView, StepView) {
    if has_payload(reader.pending) {
        let at = payload_end(reader.pending);
        (
            ReaderView { pending: reader.pending.skip(at + 2), ended: reader.ended },
            StepView::Event(event_of(reader.pending.take(at))),
        )
    } else if !reader.ended {
        (reader, StepView::NeedChunk)
    } else if reader.pending.len() > 0 {
        (
            ReaderView { pending: Seq::empty(), ended: true },
            StepView::Event(Err(DecodeErrorView::TruncatedStream)),
        )
    } else {
        (reader, StepView::Done)
    }
}

/// The reader of a streamed response: it owns the bytes that arrived and
/// were not given out yet. The caller pulls; the reader itself never waits,
/// retries or reconnects.
pub struct EventStreamReader {
    buffer: Vec<u8>,
    ended: bool,
}

impl View for EventStreamReader {
    type V = ReaderView;

    closed spec fn view(&self) -> ReaderView {
        ReaderView { pending: self.buffer@, ended: self.ended }
    }
}

/// Where the first delimiter stands in a buffer, if there is one.
fn find_delimiter(bytes: &Vec<u8>) -> (found: Option<usize>)
    ensures
        match found {
            Some(at) => ends_payload(bytes@, at as int) && at + 2 <= bytes.len(),
            None => !has_payload(bytes@),
        },
{
    if bytes.len() < 2 {
        proof {
            lemma_no_payload(bytes@);
        }
        return None;
    }
    let mut i: usize = 0;
    while i < bytes.len() - 1
        invariant
            bytes.len() >= 2,
            i <= bytes.len() - 1,
            forall|j: int| 0 <= j < i ==> !delimiter_at(bytes@, j),
        decreases bytes.len() - i,
    {
        if bytes[i] == NEWLINE && bytes[i + 1] == NEWLINE {
            return Some(i);
        }
        i += 1;
    }
    proof {
        lemma_no_payload(bytes@);
    }
    None
}

impl EventStreamReader {
    /// A reader that has received nothing yet and waits for data.
    pub fn new() -> (reader: EventStreamReader)
        ensures
            reader@.pending.len() == 0,
            !reader@.ended,
            state_of(reader@) == ReaderState::AwaitingData,
    {
        let reader = EventStreamReader { buffer: Vec::new(), ended: false };
        proof {
            lemma_no_payload(reader.buffer@);
        }
        reader
    }

    /// The state of this reader.
    pub fn state(&self) -> (state: ReaderState)
        ensures
            state == state_of(self@),
    {
        match find_delimiter(&self.buffer) {
            Some(at) => {
                proof {
                    lemma_payload_end(self.buffer@, at as int);
                }
                ReaderState::EmittingEvent
            },
            None => if !self.ended {
                ReaderState::AwaitingData
            } else if self.buffer.len() > 0 {
                ReaderState::EmittingEvent
            } else {
                ReaderState::Closed
            },
        }
    }

    /// Takes in the next chunk from the transport. After the end of the
    /// stream nothing more is taken in.
    pub fn feed(&mut self, chunk: &[u8])
        ensures
            final(self)@.ended == old(self)@.ended,
            final(self)@.pending == if old(self)@.ended {
                old(self)@.pending
            } else {
                old(self)@.pending + chunk@
            },
    {
        if self.ended {
            return ;
        }
        let mut i: usize = 0;
        while i < chunk.len()
            invariant
                i <= chunk.len(),
                self.ended == old(self).ended,
                self.buffer@ == old(self).buffer@ + chunk@.take(i as int),
            decreases chunk.len() - i,
        {
            self.buffer.push(chunk[i]);
            assert(chunk@.take(i + 1) =~= chunk@.take(i as int).push(chunk@[i as int]));
            i += 1;
        }
        assert(chunk@.take(i as int) =~= chunk@);
    }

    /// Takes note that the transport has delivered its last chunk.
    pub fn end(&mut self)
        ensures
            final(self)@.ended,
            final(self)@.pending == old(self)@.pending,
    {
        self.ended = true;
    }

    /// Gives the stream up, as after a failure of the transport: what is
    /// pending is dropped without a report, and the reader is closed.
    pub fn abort(&mut self)
        ensures
            final(self)@.ended,
            final(self)@.pending.len() == 0,
            state_of(final(self)@) == ReaderState::Closed,
    {
        self.buffer.clear();
        self.ended = true;
        proof {
            lemma_no_payload(self.buffer@);
        }
    }

    /// Pulls on the reader: gives the next event, or says that a chunk is
    /// needed or that the stream is over.
    pub fn next(&mut self) -> (step: Step)
        ensures
            (final(self)@, step@) == pull(old(self)@),
    {
        match find_delimiter(&self.buffer) {
            Some(at) => {
                proof {
                    lemma_payload_end(self.buffer@, at as int);
                }
                let mut rest = self.buffer.split_off(at + 2);
                self.buffer.truncate(at);
                std::mem::swap(&mut self.buffer, &mut rest);
                assert(rest@ =~= old(self).buffer@.take(at as int));
                assert(self.buffer@ =~= old(self).buffer@.skip(at + 2));
                let outcome = decode_event(rest.as_slice());
                Step::Event(outcome)
            },
            None => if !self.ended {
                Step::NeedChunk
            } else if self.buffer.len() > 0 {
                self.buffer.clear();
                assert(self.buffer@ =~= Seq::empty());
                Step::Event(Err(DecodeError::TruncatedStream))
            } else {
                Step::Done
            },
        }
    }
}


/// The bytes of a list of chunks, one after the other.
pub open spec fn joined(chunks: Seq<Seq<u8>>) -> Seq<u8>
    decreases chunks.len(),
{
    if chunks.len() == 0 {
        Seq::empty()
    } else {
        joined(chunks.drop_last()) + chunks.last()
    }
}

/// The bytes of each of a list of chunks.
pub open spec fn chunks_view(chunks: Seq<Vec<u8>>) -> Seq<Seq<u8>> {
    Seq::new(chunks.len(), |i: int| chunks[i]@)
}

/// What each of a list of payloads yields, in order.
pub open spec fn events_of(payloads: Seq<Seq<u8>>) -> Seq<Result<ResponseView, DecodeErrorView>> {
    Seq::new(payloads.len(), |i: int| event_of(payloads[i]))
}

/// The report on what a stream left open at its end: none where nothing was
/// left, and one `TruncatedStream` otherwise.
pub open spec fn truncation(left: Seq<u8>) -> Seq<Result<ResponseView, DecodeErrorView>> {
    if left.len() > 0 {
        seq![Err(DecodeErrorView::TruncatedStream)]
    } else {
        Seq::empty()
    }
}

/// Everything that a whole stream yields: what each of its payloads yields,
/// in the order of their delimiters, and then the report on what was left
/// open.
pub open spec fn stream_outcomes(bytes: Seq<u8>) -> Seq<Result<ResponseView, DecodeErrorView>> {
    events_of(frames(bytes)) + truncation(remainder(bytes))
}

/// The mathematical values of a list of outcomes, in order.
pub open spec fn outcomes_view(outcomes: Seq<Result<StreamEvent, DecodeError>>) -> Seq<
    Result<ResponseView, DecodeErrorView>,
> {
    Seq::new(outcomes.len(), |i: int| event_view(outcomes[i]))
}

/// A stream that ends inside a payload: the payloads before it yield what
/// they yield alone, the open one yields no event, and the stream is
/// reported as truncated.
pub proof fn lemma_truncated_stream(whole: Seq<u8>, open: Seq<u8>)
    requires
        remainder(whole).len() == 0,
        !has_payload(open),
        open.len() > 0,
    ensures
        stream_outcomes(whole + open) == stream_outcomes(whole).push(
            Err(DecodeErrorView::TruncatedStream),
        ),
        frames(whole + open) == frames(whole),
{
    lemma_frames_of_pieces(whole, open);
    assert(remainder(whole) + open =~= open);
    assert(frames(whole) + frames(open) =~= frames(whole));
    assert(stream_outcomes(whole + open) =~= stream_outcomes(whole).push(
        Err(DecodeErrorView::TruncatedStream),
    ));
}

/// One payload that cannot be decoded, between two that can: the stream
/// yields the two events in their order, with one `MalformedEvent` between
/// them, and nothing else.
pub proof fn lemma_malformed_between(before: Seq<u8>, bad: Seq<u8>, after: Seq<u8>)
    requires
        is_payload(before),
        is_payload(bad),
        is_payload(after),
        event_of(before) is Ok,
        event_of(bad) is Err,
        event_of(after) is Ok,
    ensures
        stream_outcomes(
            before + delimiter() + (bad + delimiter() + (after + delimiter() + Seq::empty())),
        ) == seq![
            event_of(before),
            Err(DecodeErrorView::MalformedEvent),
            event_of(after),
        ],
{
    let last = after + delimiter() + Seq::<u8>::empty();
    let middle = bad + delimiter() + last;
    let all = before + delimiter() + middle;
    lemma_no_payload(Seq::<u8>::empty());
    lemma_frames_of_payload(after, Seq::empty());
    lemma_frames_of_payload(bad, last);
    lemma_frames_of_payload(before, middle);
    assert(frames(all) =~= seq![before, bad, after]);
    assert(remainder(all) =~= Seq::<u8>::empty());
    lemma_event_error(bad);
    assert(stream_outcomes(all) =~= seq![
        event_of(before),
        Err(DecodeErrorView::MalformedEvent),
        event_of(after),
    ]);
}

/// What a reader will still give out if it receives nothing more: the
/// events of the whole payloads that are pending and, after the end of the
/// stream, the report on what is left open.
pub open spec fn pending_outcomes(reader: ReaderView) -> Seq<
    Result<ResponseView, DecodeErrorView>,
> {
    events_of(frames(reader.pending)) + if reader.ended {
        truncation(remainder(reader.pending))
    } else {
        Seq::empty()
    }
}

/// What a reader holds back once it has given out all it can: the open
/// payload while the transport may still deliver, and nothing after its end.
pub open spec fn held_back(reader: ReaderView) -> Seq<u8> {
    if reader.ended {
        Seq::empty()
    } else {
        remainder(reader.pending)
    }
}

/// How one pull advances a reader: an event is the first of what the reader
/// had to give, and it leaves fewer bytes pending; without an event there
/// was nothing to give.
pub proof fn lemma_pull(reader: ReaderView)
    ensures
        pull(reader).1 matches StepView::Event(outcome) ==> {
            &&& pending_outcomes(reader) == seq![outcome] + pending_outcomes(pull(reader).0)
            &&& pull(reader).0.pending.len() < reader.pending.len()
            &&& pull(reader).0.ended == reader.ended
            &&& held_back(pull(reader).0) == held_back(reader)
        },
        !(pull(reader).1 is Event) ==> {
            &&& pending_outcomes(reader) == Seq::<Result<ResponseView, DecodeErrorView>>::empty()
            &&& pull(reader).0 == reader
            &&& !has_payload(reader.pending)
            &&& held_back(reader) == reader.pending
        },
{
    let pending = reader.pending;
    lemma_no_payload(Seq::<u8>::empty());
    if has_payload(pending) {
        let at = payload_end(pending);
        assert(ends_payload(pending, at));
        assert(events_of(frames(pending)) =~= seq![event_of(pending.take(at))] + events_of(
            frames(pending.skip(at + 2)),
        ));
        assert(pending_outcomes(reader) =~= seq![event_of(pending.take(at))]
            + pending_outcomes(pull(reader).0));
    } else if !reader.ended {
        assert(pending_outcomes(reader) =~= Seq::empty());
    } else if pending.len() > 0 {
        assert(pending_outcomes(reader) =~= seq![Err(DecodeErrorView::TruncatedStream)]
            + pending_outcomes(pull(reader).0));
    } else {
        assert(pending_outcomes(reader) =~= Seq::empty());
        assert(pending =~= Seq::empty());
    }
}

impl EventStreamReader {
    /// Pulls until nothing more can be given out, and appends what the pulls
    /// give to `outcomes`.
    pub fn drain(&mut self, outcomes: &mut Vec<Result<StreamEvent, DecodeError>>)
        ensures
            final(self)@.ended == old(self)@.ended,
            final(self)@.pending == held_back(old(self)@),
            !has_payload(final(self)@.pending),
            outcomes_view(final(outcomes)@) == outcomes_view(old(outcomes)@) + pending_outcomes(
                old(self)@,
            ),
    {
        let ghost before = outcomes_view(outcomes@);
        let ghost start = self@;
        loop
            invariant
                self@.ended == start.ended,
                held_back(self@) == held_back(start),
                outcomes_view(outcomes@) + pending_outcomes(self@) == before + pending_outcomes(
                    start,
                ),
            ensures
                self@.ended == start.ended,
                self@.pending == held_back(start),
                !has_payload(self@.pending),
                outcomes_view(outcomes@) == before + pending_outcomes(start),
            decreases self@.pending.len(),
        {
            let ghost reader = self@;
            let ghost sofar = outcomes_view(outcomes@);
            proof {
                lemma_pull(reader);
            }
            match self.next() {
                Step::Event(outcome) => {
                    outcomes.push(outcome);
                    proof {
                        assert(outcomes_view(outcomes@) =~= sofar.push(event_view(outcome)));
                        assert(outcomes_view(outcomes@) + pending_outcomes(self@) =~= sofar
                            + pending_outcomes(reader));
                    }
                },
                _ => {
                    proof {
                        assert(sofar + pending_outcomes(reader) =~= sofar);
                    }
                    break ;
                },
            }
        }
    }
}

/// Decodes a whole stream that has arrived in chunks: what its payloads
/// yield, in order, and the report on what it left open. Only the bytes
/// count, not where one chunk ends and the next begins.
pub fn decode_stream(chunks: &Vec<Vec<u8>>) -> (outcomes: Vec<Result<StreamEvent, DecodeError>>)
    ensures
        outcomes_view(outcomes@) == stream_outcomes(joined(chunks_view(chunks@))),
{
    let ghost all = chunks_view(chunks@);
    let mut reader = EventStreamReader::new();
    let mut outcomes: Vec<Result<StreamEvent, DecodeError>> = Vec::new();
    let mut i: usize = 0;
    proof {
        lemma_no_payload(Seq::<u8>::empty());
        assert(all.take(0) =~= Seq::empty());
        assert(reader@.pending =~= Seq::empty());
        assert(outcomes_view(outcomes@) =~= events_of(frames(joined(all.take(0)))));
    }
    while i < chunks.len()
        invariant
            i <= chunks.len(),
            all == chunks_view(chunks@),
            !reader@.ended,
            !has_payload(reader@.pending),
            reader@.pending == remainder(joined(all.take(i as int))),
            outcomes_view(outcomes@) == events_of(frames(joined(all.take(i as int)))),
        decreases chunks.len() - i,
    {
        let ghost fed = joined(all.take(i as int));
        let ghost sofar = outcomes_view(outcomes@);
        reader.feed(chunks[i].as_slice());
        reader.drain(&mut outcomes);
        proof {
            let chunk = chunks@[i as int]@;
            assert(all.take(i + 1).drop_last() =~= all.take(i as int));
            assert(joined(all.take(i + 1)) == fed + chunk);
            lemma_frames_of_pieces(fed, chunk);
            assert(events_of(frames(fed + chunk)) =~= events_of(frames(fed)) + events_of(
                frames(remainder(fed) + chunk),
            ));
            assert(outcomes_view(outcomes@) =~= events_of(frames(fed + chunk)));
        }
        i += 1;
    }
    proof {
        assert(all.take(i as int) =~= all);
    }
    let ghost left = reader@.pending;
    reader.end();
    reader.drain(&mut outcomes);
    proof {
        assert(events_of(frames(left)) =~= Seq::empty());
        assert(remainder(left) == left);
        assert(outcomes_view(outcomes@) =~= stream_outcomes(joined(all)));
    }
    outcomes
}

} // verus!
