//! The exchange engine.
//!
//! One logical operation is one HTTP exchange. The engine decides, from the
//! request's streaming flag and from whether a handler is present, how the
//! answer is to be read, and turns the chunks of the answer into delivered
//! chunks and one final result. It never touches the network: it tells its
//! driver what to do next, and the driver tells it what came back.

use vstd::prelude::*;

use crate::codec::{decode, decoded, Response};
use crate::errors::{Error, ErrorKind};

verus! {

/// What an operation makes, in the callback form, of a streaming flag that
/// is explicitly `false`. Every operation looks at the flag: with the flag
/// off no handler is ever shown a chunk, and the iterator form is refused.
#[derive(Debug, Clone, Copy, PartialEq, Eq, Structural)]
pub enum FlagPolicy {
    /// `false` asks for one buffered answer, and a handler then stays idle.
    Honour,
    /// `false` asks for one buffered answer, and a handler together with
    /// `false` is refused.
    Insist,
}

/// How the answer of an exchange is read.
#[derive(Debug, Clone, Copy, PartialEq, Eq, Structural)]
pub enum Mode {
    /// The whole body is read and decoded once.
    Buffered,
    /// The body is decoded chunk by chunk.
    Streamed,
    /// The request is refused with `StreamingOff`, before anything is sent.
    Refused,
}

/// Whether a streaming flag asks for a streamed answer. Absent means yes.
pub open spec fn streams(flag: Option<bool>) -> bool {
    flag != Some(false)
}

/// The mode of the callback form.
pub open spec fn callback_mode(policy: FlagPolicy, flag: Option<bool>, handler: bool) -> Mode {
    if streams(flag) {
        Mode::Streamed
    } else if policy == FlagPolicy::Insist && handler {
        Mode::Refused
    } else {
        Mode::Buffered
    }
}

/// The mode of the iterator form, which has no buffered fallback: whatever
/// the policy, a flag that is off is refused.
pub open spec fn iterator_mode(policy: FlagPolicy, flag: Option<bool>) -> Mode {
    if streams(flag) {
        Mode::Streamed
    } else {
        Mode::Refused
    }
}

/// Decides the mode of the callback form.
pub fn choose_callback_mode(policy: FlagPolicy, flag: Option<bool>, handler: bool) -> (m: Mode)
    ensures
        m == callback_mode(policy, flag, handler),
{
    let wanted = match flag {
        Some(b) => b,
        None => true,
    };
    match policy {
        FlagPolicy::Honour => if wanted {
            Mode::Streamed
        } else {
            Mode::Buffered
        },
        FlagPolicy::Insist => if wanted {
            Mode::Streamed
        } else if handler {
            Mode::Refused
        } else {
            Mode::Buffered
        },
    }
}

/// Decides the mode of the iterator form.
pub fn choose_iterator_mode(policy: FlagPolicy, flag: Option<bool>) -> (m: Mode)
    ensures
        m == iterator_mode(policy, flag),
{
    let wanted = match flag {
        Some(b) => b,
        None => true,
    };
    if wanted {
        Mode::Streamed
    } else {
        Mode::Refused
    }
}

/// Whether a status code says that the server accepted the request: the
/// codes from 200 to 299 do.
pub open spec fn accepted(status: u16) -> bool {
    200 <= status <= 299
}

/// Tells whether a status code says that the server accepted the request.
pub fn is_accepted(status: u16) -> (b: bool)
    ensures
        b == accepted(status),
{
    200 <= status && status <= 299
}

/// Where an exchange stands.
#[derive(Debug, Clone, Copy, PartialEq, Eq, Structural)]
pub enum Phase {
    /// Nothing has happened yet.
    Ready,
    /// The request is on its way.
    Sending,
    /// The whole body is awaited.
    Body,
    /// The next chunk is awaited.
    Streaming,
    /// The exchange is over.
    Done,
}

/// What the driver of an exchange is to do next.
#[derive(Debug)]
pub enum Action<T> {
    /// Send the request. This is asked for at most once in an exchange.
    Send,
    /// Read the whole body and report it with `body`.
    ReadBody,
    /// Read the next chunk and report it with `chunk`, or report with `end`
    /// that there is none.
    ReadChunk,
    /// Show the latest chunk to the handler, then go on as for `ReadChunk`.
    Deliver,
    /// Stop, and return this to the caller.
    Finish(Result<T, Error>),
}

/// The mathematical value of an [`Action`]: a delivery names the chunk, and
/// an error counts by its kind.
pub enum ActionView<V> {
    Send,
    ReadBody,
    ReadChunk,
    Deliver(V),
    Finish(Result<V, ErrorKind>),
}

/// What a result says: its value, or the kind of its error.
pub open spec fn outcome<T: DeepView>(r: Result<T, Error>) -> Result<T::V, ErrorKind> {
    match r {
        Ok(v) => Ok(v.deep_view()),
        Err(e) => Err(e.kind()),
    }
}

/// The state of one exchange in the callback form.
pub struct Exchange<T> {
    phase: Phase,
    mode: Mode,
    handler: bool,
    /// The chunk that came last.
    latest: Option<T>,
    /// The most recent final record among the chunks before the latest.
    kept: Option<T>,
}

/// The mathematical value of an [`Exchange`].
pub struct ExchangeView<V> {
    pub phase: Phase,
    pub mode: Mode,
    pub handler: bool,
    pub latest: Option<V>,
    pub kept: Option<V>,
}

impl<T: Response> DeepView for Exchange<T> {
    type V = ExchangeView<<T as DeepView>::V>;

    closed spec fn deep_view(&self) -> ExchangeView<<T as DeepView>::V> {
        ExchangeView {
            phase: self.phase,
            mode: self.mode,
            handler: self.handler,
            latest: self.latest.deep_view(),
            kept: self.kept.deep_view(),
        }
    }
}

/// The most recent final record that an exchange has seen.
pub open spec fn best<T: Response>(s: ExchangeView<<T as DeepView>::V>) -> Option<
    <T as DeepView>::V,
> {
    match s.latest {
        Some(v) if T::terminal(v) => Some(v),
        _ => s.kept,
    }
}

/// The state in which an exchange ends: it holds nothing any more.
pub open spec fn closed<V>(s: ExchangeView<V>) -> ExchangeView<V> {
    ExchangeView { phase: Phase::Done, latest: None, kept: None, ..s }
}

/// The step of `begin`.
pub open spec fn after_begin<V>(s: ExchangeView<V>) -> (ExchangeView<V>, ActionView<V>) {
    if s.phase != Phase::Ready {
        (closed(s), ActionView::Finish(Err(ErrorKind::Event)))
    } else if s.mode == Mode::Refused {
        (closed(s), ActionView::Finish(Err(ErrorKind::StreamingOff)))
    } else {
        (ExchangeView { phase: Phase::Sending, ..s }, ActionView::Send)
    }
}

/// The step of `opened`, on an answer with the given status code.
pub open spec fn after_opened<V>(s: ExchangeView<V>, status: u16) -> (
    ExchangeView<V>,
    ActionView<V>,
) {
    if s.phase != Phase::Sending {
        (closed(s), ActionView::Finish(Err(ErrorKind::Event)))
    } else if s.mode == Mode::Refused {
        (closed(s), ActionView::Finish(Err(ErrorKind::StreamingOff)))
    } else if s.mode == Mode::Streamed && !s.handler {
        (closed(s), ActionView::Finish(Err(ErrorKind::NoCallback)))
    } else if !accepted(status) {
        (closed(s), ActionView::Finish(Err(ErrorKind::ErrorStatus)))
    } else if s.mode == Mode::Buffered {
        (ExchangeView { phase: Phase::Body, ..s }, ActionView::ReadBody)
    } else {
        (ExchangeView { phase: Phase::Streaming, ..s }, ActionView::ReadChunk)
    }
}

/// The step of `body`.
pub open spec fn after_body<V>(s: ExchangeView<V>, read: Result<V, ErrorKind>) -> (
    ExchangeView<V>,
    ActionView<V>,
) {
    if s.phase != Phase::Body {
        (closed(s), ActionView::Finish(Err(ErrorKind::Event)))
    } else {
        (closed(s), ActionView::Finish(read))
    }
}

/// The step of `chunk`.
pub open spec fn after_chunk<T: Response>(
    s: ExchangeView<<T as DeepView>::V>,
    read: Result<<T as DeepView>::V, ErrorKind>,
) -> (ExchangeView<<T as DeepView>::V>, ActionView<<T as DeepView>::V>) {
    if s.phase != Phase::Streaming {
        (closed(s), ActionView::Finish(Err(ErrorKind::Event)))
    } else {
        match read {
            Ok(v) => (
                ExchangeView { latest: Some(v), kept: best::<T>(s), ..s },
                ActionView::Deliver(v),
            ),
            Err(kind) => (closed(s), ActionView::Finish(Err(kind))),
        }
    }
}

/// The step of `end`.
pub open spec fn after_end<T: Response>(s: ExchangeView<<T as DeepView>::V>) -> (
    ExchangeView<<T as DeepView>::V>,
    ActionView<<T as DeepView>::V>,
) {
    if s.phase != Phase::Streaming {
        (closed(s), ActionView::Finish(Err(ErrorKind::Event)))
    } else {
        match best::<T>(s) {
            Some(v) => (closed(s), ActionView::Finish(Ok(v))),
            None => (closed(s), ActionView::Finish(Err(ErrorKind::EmptyResponse))),
        }
    }
}

impl<T: Response> Exchange<T> {
    /// What an action says, given the state that the step left behind.
    pub open spec fn told(self, a: Action<T>) -> ActionView<<T as DeepView>::V> {
        match a {
            Action::Send => ActionView::Send,
            Action::ReadBody => ActionView::ReadBody,
            Action::ReadChunk => ActionView::ReadChunk,
            Action::Deliver => ActionView::Deliver(self.deep_view().latest->0),
            Action::Finish(r) => ActionView::Finish(outcome(r)),
        }
    }

    /// An exchange in the callback form, before anything is sent.
    pub fn callback(policy: FlagPolicy, flag: Option<bool>, handler: bool) -> (ex: Self)
        ensures
            ex.deep_view() == (ExchangeView::<<T as DeepView>::V> {
                phase: Phase::Ready,
                mode: callback_mode(policy, flag, handler),
                handler,
                latest: None,
                kept: None,
            }),
    {
        Exchange {
            phase: Phase::Ready,
            mode: choose_callback_mode(policy, flag, handler),
            handler,
            latest: None,
            kept: None,
        }
    }

    /// Drops what the exchange holds and closes it.
    fn close(&mut self)
        ensures
            final(self).deep_view() == closed(old(self).deep_view()),
    {
        self.phase = Phase::Done;
        self.latest = None;
        self.kept = None;
    }

    /// Starts the exchange. A refused request ends here, with
    /// `StreamingOff` and with nothing sent; any other is to be sent now.
    pub fn begin(&mut self) -> (a: Action<T>)
        ensures
            (final(self).deep_view(), final(self).told(a)) == after_begin(old(self).deep_view()),
            !(a is Deliver),
    {
        match self.phase {
            Phase::Ready => {
                match self.mode {
                    Mode::Refused => {
                        self.close();
                        Action::Finish(Err(Error::StreamingOff))
                    },
                    _ => {
                        self.phase = Phase::Sending;
                        Action::Send
                    },
                }
            },
            _ => {
                self.close();
                Action::Finish(Err(Error::Event))
            },
        }
    }

    /// Takes note that the request was sent and that an answer with the
    /// given status code is there to be read. A streamed answer without a
    /// handler ends here, with `NoCallback` and with no chunk read. Any
    /// other answer whose status code is outside 200 to 299 ends here too,
    /// with `ErrorStatus` and the code, and with nothing of it decoded.
    pub fn opened(&mut self, status: u16) -> (a: Action<T>)
        ensures
            (final(self).deep_view(), final(self).told(a)) == after_opened(
                old(self).deep_view(),
                status,
            ),
            !(a is Deliver),
            a matches Action::Finish(Err(e)) ==> (e.kind() == ErrorKind::ErrorStatus
                ==> e.status_code() == Some(status)),
    {
        match self.phase {
            Phase::Sending => {
                match self.mode {
                    Mode::Refused => {
                        self.close();
                        Action::Finish(Err(Error::StreamingOff))
                    },
                    Mode::Buffered => {
                        if is_accepted(status) {
                            self.phase = Phase::Body;
                            Action::ReadBody
                        } else {
                            self.close();
                            Action::Finish(Err(Error::ErrorStatus(status)))
                        }
                    },
                    Mode::Streamed => {
                        if !self.handler {
                            self.close();
                            Action::Finish(Err(Error::NoCallback))
                        } else if is_accepted(status) {
                            self.phase = Phase::Streaming;
                            Action::ReadChunk
                        } else {
                            self.close();
                            Action::Finish(Err(Error::ErrorStatus(status)))
                        }
                    },
                }
            },
            _ => {
                self.close();
                Action::Finish(Err(Error::Event))
            },
        }
    }

    /// Takes the whole body, decoded once. It is the result, whatever the
    /// terminal predicate says of it; a failure to decode it is the error.
    pub fn body(&mut self, read: Result<T, Error>) -> (a: Action<T>)
        ensures
            (final(self).deep_view(), final(self).told(a)) == after_body(
                old(self).deep_view(),
                outcome(read),
            ),
            a is Finish,
    {
        match self.phase {
            Phase::Body => {
                self.close();
                Action::Finish(read)
            },
            _ => {
                self.close();
                Action::Finish(Err(Error::Event))
            },
        }
    }

    /// Takes the next chunk, decoded. A chunk that decoded is to be
    /// delivered; one that did not ends the exchange with its error.
    pub fn chunk(&mut self, read: Result<T, Error>) -> (a: Action<T>)
        ensures
            (final(self).deep_view(), final(self).told(a)) == after_chunk::<T>(
                old(self).deep_view(),
                outcome(read),
            ),
            a is Deliver || a is Finish,
    {
        match self.phase {
            Phase::Streaming => {
                match read {
                    Ok(v) => {
                        let was_final = match &self.latest {
                            Some(previous) => previous.is_terminal(),
                            None => false,
                        };
                        if was_final {
                            self.kept = self.latest.take();
                        }
                        self.latest = Some(v);
                        Action::Deliver
                    },
                    Err(e) => {
                        self.close();
                        Action::Finish(Err(e))
                    },
                }
            },
            _ => {
                self.close();
                Action::Finish(Err(Error::Event))
            },
        }
    }

    /// Takes note that the stream is exhausted. The result is the most
    /// recent final record; without one the exchange fails with
    /// `EmptyResponse`.
    pub fn end(&mut self) -> (a: Action<T>)
        ensures
            (final(self).deep_view(), final(self).told(a)) == after_end::<T>(old(self).deep_view()),
            a is Finish,
    {
        match self.phase {
            Phase::Streaming => {
                let is_final = match &self.latest {
                    Some(last) => last.is_terminal(),
                    None => false,
                };
                let found = if is_final {
                    self.latest.take()
                } else {
                    self.kept.take()
                };
                self.close();
                match found {
                    Some(v) => Action::Finish(Ok(v)),
                    None => Action::Finish(Err(Error::EmptyResponse)),
                }
            },
            _ => {
                self.close();
                Action::Finish(Err(Error::Event))
            },
        }
    }

    /// The chunk that came last: the one that `Deliver` speaks of.
    pub fn latest(&self) -> (r: Option<&T>)
        ensures
            r.deep_view() == self.deep_view().latest,
    {
        self.latest.as_ref()
    }

    /// Where the exchange stands.
    pub fn phase(&self) -> (p: Phase)
        ensures
            p == self.deep_view().phase,
    {
        self.phase
    }

    /// How the answer is read.
    pub fn mode(&self) -> (m: Mode)
        ensures
            m == self.deep_view().mode,
    {
        self.mode
    }
}

/// The bytes of a body that arrived as these chunks: the chunks, joined.
pub open spec fn joined(chunks: Seq<Seq<u8>>) -> Seq<u8>
    decreases chunks.len(),
{
    if chunks.len() == 0 {
        Seq::empty()
    } else {
        joined(chunks.drop_last()) + chunks.last()
    }
}

/// The index of the first chunk, from `start` on, that does not decode; the
/// number of chunks where all of them do.
pub open spec fn sound_from<T: Response>(chunks: Seq<Seq<u8>>, start: nat) -> nat
    decreases chunks.len() - start,
{
    if start >= chunks.len() || decoded::<T>(chunks[start as int]) is None {
        start
    } else {
        sound_from::<T>(chunks, start + 1)
    }
}

/// The number of leading chunks that decode.
pub open spec fn sound_prefix<T: Response>(chunks: Seq<Seq<u8>>) -> nat {
    sound_from::<T>(chunks, 0)
}

/// The values of the first `n` chunks, in the order of the chunks.
pub open spec fn values<T: Response>(chunks: Seq<Seq<u8>>, n: nat) -> Seq<<T as DeepView>::V> {
    Seq::new(n, |i: int| decoded::<T>(chunks[i])->0)
}

/// The last of the values that the terminal predicate holds of.
pub open spec fn last_terminal<T: Response>(values: Seq<<T as DeepView>::V>) -> Option<
    <T as DeepView>::V,
>
    decreases values.len(),
{
    if values.len() == 0 {
        None
    } else if T::terminal(values.last()) {
        Some(values.last())
    } else {
        last_terminal::<T>(values.drop_last())
    }
}

/// Whether the chunks of an answer are decoded one by one: in a streamed
/// exchange with a handler, on an answer that the server accepted.
pub open spec fn reads_chunks(mode: Mode, handler: bool, status: u16) -> bool {
    mode == Mode::Streamed && handler && accepted(status)
}

/// What the handler of an exchange is shown, in order: where the chunks are
/// decoded one by one, the value of every chunk up to the first that does
/// not decode; else nothing.
pub open spec fn deliveries<T: Response>(
    mode: Mode,
    handler: bool,
    status: u16,
    chunks: Seq<Seq<u8>>,
) -> Seq<<T as DeepView>::V> {
    if reads_chunks(mode, handler, status) {
        values::<T>(chunks, sound_prefix::<T>(chunks))
    } else {
        Seq::empty()
    }
}

/// What an exchange in the callback form returns, on an answer with the
/// given status code and chunks.
pub open spec fn verdict<T: Response>(
    mode: Mode,
    handler: bool,
    status: u16,
    chunks: Seq<Seq<u8>>,
) -> Result<<T as DeepView>::V, ErrorKind> {
    match mode {
        Mode::Refused => Err(ErrorKind::StreamingOff),
        Mode::Buffered => if !accepted(status) {
            Err(ErrorKind::ErrorStatus)
        } else {
            match decoded::<T>(joined(chunks)) {
                Some(v) => Ok(v),
                None => Err(ErrorKind::JsonDecoding),
            }
        },
        Mode::Streamed => if !handler {
            Err(ErrorKind::NoCallback)
        } else if !accepted(status) {
            Err(ErrorKind::ErrorStatus)
        } else if sound_prefix::<T>(chunks) < chunks.len() {
            Err(ErrorKind::JsonDecoding)
        } else {
            match last_terminal::<T>(values::<T>(chunks, chunks.len())) {
                Some(v) => Ok(v),
                None => Err(ErrorKind::EmptyResponse),
            }
        },
    }
}

/// How many chunks of a streamed answer an exchange reads: where the
/// chunks are decoded one by one, every chunk up to and with the first that
/// does not decode; else none.
pub open spec fn chunks_read<T: Response>(
    mode: Mode,
    handler: bool,
    status: u16,
    chunks: Seq<Seq<u8>>,
) -> nat {
    if reads_chunks(mode, handler, status) {
        if sound_prefix::<T>(chunks) < chunks.len() {
            sound_prefix::<T>(chunks) + 1
        } else {
            chunks.len()
        }
    } else {
        0
    }
}

/// What came of one exchange in the callback form.
#[derive(Debug)]
pub struct Execution<T> {
    /// The chunks that the handler was shown, in order.
    pub delivered: Vec<T>,
    /// What the call returns.
    pub result: Result<T, Error>,
    /// How many requests were sent.
    pub requests: usize,
    /// How many chunks of a streamed answer were read.
    pub chunks_read: usize,
}

impl<T: Response> Execution<T> {
    /// Whether this is what an exchange of the given mode comes to on an
    /// answer with the given status code and chunks: the deliveries, the
    /// result (an `ErrorStatus` carries the code), one request unless the
    /// exchange is refused, and the number of chunks read.
    pub open spec fn describes(
        self,
        mode: Mode,
        handler: bool,
        status: u16,
        chunks: Seq<Seq<u8>>,
    ) -> bool {
        &&& self.delivered.deep_view() =~= deliveries::<T>(mode, handler, status, chunks)
        &&& outcome(self.result) == verdict::<T>(mode, handler, status, chunks)
        &&& self.result matches Err(e) ==> (e.kind() == ErrorKind::ErrorStatus
            ==> e.status_code() == Some(status))
        &&& self.requests == (if mode == Mode::Refused {
            0usize
        } else {
            1usize
        })
        &&& self.chunks_read == chunks_read::<T>(mode, handler, status, chunks)
    }
}

/// Joins the chunks of a body.
pub fn join(chunks: &Vec<Vec<u8>>) -> (body: Vec<u8>)
    ensures
        body@ == joined(chunks.deep_view()),
{
    let mut body: Vec<u8> = Vec::new();
    let mut i: usize = 0;
    assert(chunks.deep_view().take(0) =~= Seq::<Seq<u8>>::empty());
    while i < chunks.len()
        invariant
            i <= chunks.len(),
            body@ == joined(chunks.deep_view().take(i as int)),
        decreases chunks.len() - i,
    {
        let chunk = &chunks[i];
        let ghost before = body@;
        let mut j: usize = 0;
        while j < chunk.len()
            invariant
                j <= chunk.len(),
                body@ == before + chunk@.take(j as int),
            decreases chunk.len() - j,
        {
            body.push(chunk[j]);
            assert(chunk@.take(j + 1) == chunk@.take(j as int).push(chunk@[j as int]));
            j = j + 1;
        }
        proof {
            assert(chunk@.take(chunk.len() as int) == chunk@);
            let longer = chunks.deep_view().take(i + 1);
            assert(longer.drop_last() == chunks.deep_view().take(i as int));
            assert(longer.last() == chunk@);
        }
        i = i + 1;
    }
    assert(chunks.deep_view().take(chunks.len() as int) == chunks.deep_view());
    body
}

/// The most recent final record among `values`, where `more` came after
/// them: the last step of a stream.
pub proof fn lemma_last_terminal_push<T: Response>(
    values: Seq<<T as DeepView>::V>,
    more: <T as DeepView>::V,
)
    ensures
        last_terminal::<T>(values.push(more)) == (if T::terminal(more) {
            Some(more)
        } else {
            last_terminal::<T>(values)
        }),
{
    assert(values.push(more).drop_last() == values);
}

/// Runs one exchange in the callback form against an answer that is all at
/// hand: its status code, and its chunks in the order of their arrival.
///
/// `handler` says whether the caller has a handler for chunks. The mode
/// follows from the operation's policy, the request's flag and the handler.
/// An answer whose status code is outside 200 to 299 fails with
/// `ErrorStatus` and the code, and nothing of it is decoded.
/// A buffered exchange reads the chunks as one body, decodes it once and
/// returns it; the handler is shown nothing. A streamed exchange decodes
/// chunk by chunk, shows each one to the handler in the order of arrival,
/// stops at the first chunk that does not decode, and returns the most
/// recent final record; without a handler it fails with `NoCallback`
/// before any chunk is read, and with a handler but no final record it
/// fails with `EmptyResponse`. A refused exchange fails with
/// `StreamingOff` before anything is sent. Any other exchange sends one
/// request.
pub fn execute<T: Response>(
    policy: FlagPolicy,
    flag: Option<bool>,
    handler: bool,
    status: u16,
    chunks: &Vec<Vec<u8>>,
) -> (run: Execution<T>)
    ensures
        run.describes(callback_mode(policy, flag, handler), handler, status, chunks.deep_view()),
{
    let ghost mode = callback_mode(policy, flag, handler);
    let ghost input = chunks.deep_view();
    let mut ex = Exchange::<T>::callback(policy, flag, handler);
    let mut delivered: Vec<T> = Vec::new();
    match ex.begin() {
        Action::Send => {},
        Action::Finish(result) => {
            return Execution { delivered, result, requests: 0, chunks_read: 0 };
        },
        _ => {
            return Execution { delivered, result: Err(Error::Event), requests: 0, chunks_read: 0 };
        },
    }
    match ex.opened(status) {
        Action::ReadBody => {
            let body = join(chunks);
            let read = decode::<T>(body.as_slice());
            match ex.body(read) {
                Action::Finish(result) => {
                    return Execution { delivered, result, requests: 1, chunks_read: 0 };
                },
                _ => {
                    return Execution {
                        delivered,
                        result: Err(Error::Event),
                        requests: 1,
                        chunks_read: 0,
                    };
                },
            }
        },
        Action::ReadChunk => {},
        Action::Finish(result) => {
            return Execution { delivered, result, requests: 1, chunks_read: 0 };
        },
        _ => {
            return Execution { delivered, result: Err(Error::Event), requests: 1, chunks_read: 0 };
        },
    }
    let mut i: usize = 0;
    assert(values::<T>(input, 0) =~= Seq::empty());
    while i < chunks.len()
        invariant
            i <= chunks.len(),
            input == chunks.deep_view(),
            mode == callback_mode(policy, flag, handler),
            mode == Mode::Streamed,
            handler,
            accepted(status),
            ex.deep_view().phase == Phase::Streaming,
            ex.deep_view().mode == mode,
            ex.deep_view().handler == handler,
            sound_prefix::<T>(input) == sound_from::<T>(input, i as nat),
            delivered.deep_view() == values::<T>(input, i as nat),
            best::<T>(ex.deep_view()) == last_terminal::<T>(values::<T>(input, i as nat)),
        decreases chunks.len() - i,
    {
        assert(input[i as int] == chunks@[i as int]@);
        let read = decode::<T>(chunks[i].as_slice());
        let ghost value = decoded::<T>(input[i as int]);
        match ex.chunk(read) {
            Action::Deliver => {
                match ex.latest() {
                    Some(chunk) => {
                        delivered.push(chunk.duplicate());
                    },
                    None => {},
                }
                proof {
                    assert(values::<T>(input, (i + 1) as nat) =~= values::<T>(input, i as nat).push(
                        value->0,
                    ));
                    lemma_last_terminal_push::<T>(values::<T>(input, i as nat), value->0);
                    assert(delivered.deep_view() =~= values::<T>(input, (i + 1) as nat));
                }
            },
            Action::Finish(result) => {
                return Execution { delivered, result, requests: 1, chunks_read: i + 1 };
            },
            _ => {
                return Execution {
                    delivered,
                    result: Err(Error::Event),
                    requests: 1,
                    chunks_read: i + 1,
                };
            },
        }
        i = i + 1;
    }
    match ex.end() {
        Action::Finish(result) => Execution { delivered, result, requests: 1, chunks_read: i },
        _ => Execution { delivered, result: Err(Error::Event), requests: 1, chunks_read: i },
    }
}

/// What one chunk gives in the iterator form: its value, or
/// `JsonDecoding`.
pub open spec fn element<T: Response>(chunk: Seq<u8>) -> Result<<T as DeepView>::V, ErrorKind> {
    match decoded::<T>(chunk) {
        Some(v) => Ok(v),
        None => Err(ErrorKind::JsonDecoding),
    }
}

/// The lazy sequence of the iterator form: single-pass and forward-only.
/// Each chunk is decoded when it is asked for, and by itself: a chunk that
/// does not decode gives an error and the sequence goes on. Which chunks
/// are final is for the consumer to tell.
pub struct ChunkStream<T> {
    chunks: Vec<Vec<u8>>,
    position: usize,
    response: core::marker::PhantomData<T>,
}

impl<T: Response> ChunkStream<T> {
    /// The chunks that are still to come, in order.
    pub closed spec fn remaining(&self) -> Seq<Seq<u8>> {
        if self.position <= self.chunks.len() {
            self.chunks.deep_view().skip(self.position as int)
        } else {
            Seq::empty()
        }
    }

    /// The next element: the first of the remaining chunks, decoded. An
    /// exhausted sequence gives `None`, now and ever after.
    pub fn next(&mut self) -> (r: Option<Result<T, Error>>)
        ensures
            old(self).remaining().len() == 0 ==> r is None && final(self).remaining().len() == 0,
            old(self).remaining().len() > 0 ==> r is Some && outcome(r->0) == element::<T>(
                old(self).remaining()[0],
            ) && final(self).remaining() == old(self).remaining().drop_first(),
    {
        if self.position >= self.chunks.len() {
            return None;
        }
        let read = decode::<T>(self.chunks[self.position].as_slice());
        proof {
            let all = self.chunks.deep_view();
            assert(all.skip(self.position as int)[0] == self.chunks@[self.position as int]@);
            assert(all.skip(self.position as int).drop_first() == all.skip(self.position + 1));
        }
        self.position = self.position + 1;
        Some(read)
    }

    /// All the elements that are still to come, in the order of the chunks.
    /// The sequence is exhausted afterwards.
    pub fn drain(&mut self) -> (r: Vec<Result<T, Error>>)
        ensures
            r@.len() == old(self).remaining().len(),
            forall|i: int|
                0 <= i < r@.len() ==> outcome(#[trigger] r@[i]) == element::<T>(
                    old(self).remaining()[i],
                ),
            final(self).remaining().len() == 0,
    {
        let ghost start = self.remaining();
        let mut out: Vec<Result<T, Error>> = Vec::new();
        loop
            invariant
                out@.len() + self.remaining().len() == start.len(),
                self.remaining() == start.skip(out@.len() as int),
                forall|i: int|
                    0 <= i < out@.len() ==> outcome(#[trigger] out@[i]) == element::<T>(start[i]),
            ensures
                self.remaining().len() == 0,
            decreases self.remaining().len(),
        {
            match self.next() {
                Some(read) => {
                    out.push(read);
                },
                None => {
                    break ;
                },
            }
        }
        out
    }
}

/// What opening the iterator form comes to, on an answer with the given
/// status code and chunks: a request whose flag is off is refused with
/// `StreamingOff`, an answer that the server did not accept fails with
/// `ErrorStatus` and its code, and any other gives the sequence of all the
/// chunks.
pub open spec fn opens<T: Response>(
    r: Result<ChunkStream<T>, Error>,
    mode: Mode,
    status: u16,
    chunks: Seq<Seq<u8>>,
) -> bool {
    match r {
        Ok(stream) => mode == Mode::Streamed && accepted(status) && stream.remaining() == chunks,
        Err(e) => if mode == Mode::Streamed {
            !accepted(status) && e == Error::ErrorStatus(status)
        } else {
            e == Error::StreamingOff
        },
    }
}

/// Opens the iterator form over an answer that is all at hand: its status
/// code, and its chunks in the order of their arrival.
///
/// The iterator form has no buffered fallback: a request that switches
/// streaming off is refused with `StreamingOff`, before anything is sent.
/// An answer whose status code is outside 200 to 299 fails with
/// `ErrorStatus` and the code. The sequence that comes back holds every
/// chunk, none of them decoded yet.
pub fn execute_streamed<T: Response>(
    policy: FlagPolicy,
    flag: Option<bool>,
    status: u16,
    chunks: Vec<Vec<u8>>,
) -> (r: Result<ChunkStream<T>, Error>)
    ensures
        opens(r, iterator_mode(policy, flag), status, chunks.deep_view()),
{
    match choose_iterator_mode(policy, flag) {
        Mode::Streamed => {
            if is_accepted(status) {
                assert(chunks.deep_view().skip(0) == chunks.deep_view());
                Ok(ChunkStream { chunks, position: 0, response: core::marker::PhantomData })
            } else {
                Err(Error::ErrorStatus(status))
            }
        },
        _ => Err(Error::StreamingOff),
    }
}

/// With the streaming flag explicitly `false` the handler is never shown
/// a chunk and no chunk is decoded by itself, whatever the operation's
/// policy, the answer and its status code.
pub proof fn lemma_flag_off_never_delivers<T: Response>(
    policy: FlagPolicy,
    handler: bool,
    status: u16,
    chunks: Seq<Seq<u8>>,
)
    ensures
        callback_mode(policy, Some(false), handler) != Mode::Streamed,
        deliveries::<T>(callback_mode(policy, Some(false), handler), handler, status, chunks)
            == Seq::<<T as DeepView>::V>::empty(),
        chunks_read::<T>(callback_mode(policy, Some(false), handler), handler, status, chunks)
            == 0,
{
}

/// With the streaming flag explicitly `false`, on an operation that
/// honours the flag and on an answer that the server accepted, the result
/// is what the whole body decodes to, in one attempt: its value, or
/// `JsonDecoding`. The same holds of an operation that insists, where no
/// handler is present.
pub proof fn lemma_flag_off_is_buffered<T: Response>(
    policy: FlagPolicy,
    handler: bool,
    status: u16,
    chunks: Seq<Seq<u8>>,
)
    requires
        policy == FlagPolicy::Honour || !handler,
        accepted(status),
    ensures
        callback_mode(policy, Some(false), handler) == Mode::Buffered,
        verdict::<T>(Mode::Buffered, handler, status, chunks) == element::<T>(joined(chunks)),
{
}

/// An answer that the server did not accept is not decoded: the exchange
/// fails with `ErrorStatus`, nothing is delivered and no chunk is read.
/// The one exception is the streamed exchange without a handler, which
/// fails with `NoCallback` whatever the answer.
pub proof fn lemma_unaccepted_answer<T: Response>(
    mode: Mode,
    handler: bool,
    status: u16,
    chunks: Seq<Seq<u8>>,
)
    requires
        !accepted(status),
        mode == Mode::Buffered || (mode == Mode::Streamed && handler),
    ensures
        verdict::<T>(mode, handler, status, chunks) == Err::<<T as DeepView>::V, ErrorKind>(
            ErrorKind::ErrorStatus,
        ),
        deliveries::<T>(mode, handler, status, chunks) == Seq::<<T as DeepView>::V>::empty(),
        chunks_read::<T>(mode, handler, status, chunks) == 0,
{
}

/// No step of an exchange that is not streamed asks for a delivery, and
/// none asks for a chunk.
pub proof fn lemma_only_streams_deliver<T: Response>(
    s: ExchangeView<<T as DeepView>::V>,
    status: u16,
    read: Result<<T as DeepView>::V, ErrorKind>,
)
    requires
        s.mode != Mode::Streamed,
        s.phase != Phase::Streaming,
    ensures
        !(after_begin(s).1 is Deliver) && !(after_begin(s).1 is ReadChunk),
        !(after_opened(s, status).1 is Deliver) && !(after_opened(s, status).1 is ReadChunk),
        !(after_body(s, read).1 is Deliver) && !(after_body(s, read).1 is ReadChunk),
        !(after_chunk::<T>(s, read).1 is Deliver) && !(after_chunk::<T>(s, read).1 is ReadChunk),
        !(after_end::<T>(s).1 is Deliver) && !(after_end::<T>(s).1 is ReadChunk),
        after_begin(s).0.phase != Phase::Streaming,
        after_opened(s, status).0.phase != Phase::Streaming,
        after_body(s, read).0.phase != Phase::Streaming,
        after_chunk::<T>(s, read).0.phase != Phase::Streaming,
        after_end::<T>(s).0.phase != Phase::Streaming,
{
}

/// A request is sent by the first step of an exchange and by no other: an
/// exchange sends at most once.
pub proof fn lemma_sends_once<T: Response>(
    s: ExchangeView<<T as DeepView>::V>,
    status: u16,
    read: Result<<T as DeepView>::V, ErrorKind>,
)
    ensures
        after_begin(s).1 is Send ==> s.phase == Phase::Ready && after_begin(s).0.phase
            == Phase::Sending,
        !(after_opened(s, status).1 is Send) && after_opened(s, status).0.phase != Phase::Ready,
        !(after_body(s, read).1 is Send) && after_body(s, read).0.phase != Phase::Ready,
        !(after_chunk::<T>(s, read).1 is Send) && after_chunk::<T>(s, read).0.phase
            != Phase::Ready,
        !(after_end::<T>(s).1 is Send) && after_end::<T>(s).0.phase != Phase::Ready,
        after_begin(s).0.phase != Phase::Ready,
{
}

/// The chunks are delivered in the order of their arrival, none left out
/// and none twice: the deliveries are the values of a prefix of the chunks,
/// one for one.
pub proof fn lemma_deliveries_keep_order<T: Response>(
    mode: Mode,
    handler: bool,
    status: u16,
    chunks: Seq<Seq<u8>>,
)
    ensures
        deliveries::<T>(mode, handler, status, chunks).len() <= chunks.len(),
        forall|i: int|
            0 <= i < deliveries::<T>(mode, handler, status, chunks).len() ==> decoded::<T>(
                chunks[i],
            ) == Some(#[trigger] deliveries::<T>(mode, handler, status, chunks)[i]),
{
    lemma_sound_prefix::<T>(chunks, 0);
}

/// From `start` on, every chunk before the first failure decodes, and the
/// chunk at the first failure, if there is one, does not.
pub proof fn lemma_sound_prefix<T: Response>(chunks: Seq<Seq<u8>>, start: nat)
    requires
        start <= chunks.len(),
    ensures
        start <= sound_from::<T>(chunks, start) <= chunks.len(),
        forall|i: int|
            start <= i < sound_from::<T>(chunks, start) ==> decoded::<T>(#[trigger] chunks[i])
                is Some,
        sound_from::<T>(chunks, start) < chunks.len() ==> decoded::<T>(
            chunks[sound_from::<T>(chunks, start) as int],
        ) is None,
    decreases chunks.len() - start,
{
    if start < chunks.len() && decoded::<T>(chunks[start as int]) is Some {
        lemma_sound_prefix::<T>(chunks, start + 1);
    }
}

/// Where every chunk decodes, all of them count.
pub proof fn lemma_all_sound<T: Response>(chunks: Seq<Seq<u8>>, start: nat)
    requires
        start <= chunks.len(),
        forall|i: int| 0 <= i < chunks.len() ==> decoded::<T>(#[trigger] chunks[i]) is Some,
    ensures
        sound_from::<T>(chunks, start) == chunks.len(),
    decreases chunks.len() - start,
{
    if start < chunks.len() {
        lemma_all_sound::<T>(chunks, start + 1);
    }
}

/// Decoding is a function of the bytes: two attempts on the same chunk
/// agree, in the value or in the failure.
pub proof fn lemma_decode_is_idempotent<T: Response>(
    bytes: Seq<u8>,
    first: Result<T, Error>,
    second: Result<T, Error>,
)
    requires
        outcome(first) == element::<T>(bytes),
        outcome(second) == element::<T>(bytes),
    ensures
        outcome(first) == outcome(second),
{
}

/// Among values of which none is final, none is found.
pub proof fn lemma_no_terminal<T: Response>(values: Seq<<T as DeepView>::V>)
    requires
        forall|i: int| 0 <= i < values.len() ==> !T::terminal(#[trigger] values[i]),
    ensures
        last_terminal::<T>(values) is None,
    decreases values.len(),
{
    if values.len() > 0 {
        lemma_no_terminal::<T>(values.drop_last());
    }
}

/// A stream of chunks that all decode, of which the last is final and no
/// other is, gives the value of the last chunk, with a handler present and
/// on an answer that the server accepted.
pub proof fn lemma_terminal_selection<T: Response>(status: u16, chunks: Seq<Seq<u8>>)
    requires
        accepted(status),
        chunks.len() > 0,
        forall|i: int| 0 <= i < chunks.len() ==> decoded::<T>(#[trigger] chunks[i]) is Some,
        forall|i: int|
            0 <= i < chunks.len() - 1 ==> !T::terminal(decoded::<T>(#[trigger] chunks[i])->0),
        T::terminal(decoded::<T>(chunks.last())->0),
    ensures
        verdict::<T>(Mode::Streamed, true, status, chunks) == Ok::<<T as DeepView>::V, ErrorKind>(
            decoded::<T>(chunks.last())->0,
        ),
        deliveries::<T>(Mode::Streamed, true, status, chunks) == values::<T>(
            chunks,
            chunks.len(),
        ),
{
    lemma_all_sound::<T>(chunks, 0);
    let all = values::<T>(chunks, chunks.len());
    assert(all.last() == decoded::<T>(chunks.last())->0);
}

/// A stream of chunks that all decode and of which none is final fails
/// with `EmptyResponse`, with a handler present and on an answer that the
/// server accepted; so does an empty stream.
pub proof fn lemma_no_terminal_is_empty_response<T: Response>(status: u16, chunks: Seq<Seq<u8>>)
    requires
        accepted(status),
        forall|i: int| 0 <= i < chunks.len() ==> decoded::<T>(#[trigger] chunks[i]) is Some,
        forall|i: int|
            0 <= i < chunks.len() ==> !T::terminal(decoded::<T>(#[trigger] chunks[i])->0),
    ensures
        verdict::<T>(Mode::Streamed, true, status, chunks) == Err::<<T as DeepView>::V, ErrorKind>(
            ErrorKind::EmptyResponse,
        ),
{
    lemma_all_sound::<T>(chunks, 0);
    let all = values::<T>(chunks, chunks.len());
    assert forall|i: int| 0 <= i < all.len() implies !T::terminal(#[trigger] all[i]) by {
        assert(all[i] == decoded::<T>(chunks[i])->0);
    }
    lemma_no_terminal::<T>(all);
}

/// A streamed exchange without a handler fails with `NoCallback`: one
/// request is sent, no chunk is read and nothing is delivered, whatever the
/// operation's policy and whatever the answer holds.
pub proof fn lemma_missing_handler<T: Response>(
    policy: FlagPolicy,
    flag: Option<bool>,
    status: u16,
    chunks: Seq<Seq<u8>>,
)
    requires
        streams(flag),
    ensures
        callback_mode(policy, flag, false) == Mode::Streamed,
        verdict::<T>(Mode::Streamed, false, status, chunks) == Err::<
            <T as DeepView>::V,
            ErrorKind,
        >(ErrorKind::NoCallback),
        chunks_read::<T>(Mode::Streamed, false, status, chunks) == 0,
        deliveries::<T>(Mode::Streamed, false, status, chunks) == Seq::<
            <T as DeepView>::V,
        >::empty(),
{
}

/// The iterator form refuses a flag that is explicitly `false`, on every
/// operation, and the refusal is the first step of the exchange: nothing is
/// sent.
pub proof fn lemma_iterator_refuses_flag_off<T: Response>(policy: FlagPolicy, handler: bool)
    ensures
        iterator_mode(policy, Some(false)) == Mode::Refused,
        after_begin(
            ExchangeView::<<T as DeepView>::V> {
                phase: Phase::Ready,
                mode: Mode::Refused,
                handler,
                latest: None,
                kept: None,
            },
        ).1 == ActionView::<<T as DeepView>::V>::Finish(Err(ErrorKind::StreamingOff)),
{
}

} // verus!
