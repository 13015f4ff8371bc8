//! Reading a `text/event-stream` body into server-sent events (`event` + `data`).
//!
//! The byte stream is cut into lines at `\n` (a `\r` before it is dropped);
//! `event:` and `data:` lines fill the current event, lines starting with `:`
//! are comments, and an empty line ends the event.

use std::collections::VecDeque;
use vstd::prelude::*;
use vstd::string::*;
use vstd::utf8::*;

use crate::text::{join_spec, join_strings, str_trim, str_trim_start, trim_spec, trim_start_spec, utf8_lossy, lossy_text};

verus! {

/// One server-sent event. `event` is `None` when the event had no `event:` line.
#[derive(Debug, Clone, PartialEq, Eq)]
pub struct SseEvent {
    pub event: Option<String>,
    pub data: String,
}

/// The value of an [`SseEvent`].
pub struct SseEventV {
    pub event: Option<Seq<char>>,
    pub data: Seq<char>,
}

impl DeepView for SseEvent {
    type V = SseEventV;

    open spec fn deep_view(&self) -> SseEventV {
        SseEventV { event: self.event.deep_view(), data: self.data@ }
    }
}

/// The state of the line reader: the event being assembled (its `event:`
/// value and its `data:` lines) and the events that are complete.
pub struct SseStateV {
    pub event: Option<Seq<char>>,
    pub data: Seq<Seq<char>>,
    pub out: Seq<SseEventV>,
}

pub open spec fn initial_state() -> SseStateV {
    SseStateV { event: None, data: Seq::empty(), out: Seq::empty() }
}

pub open spec fn newline_char_seq() -> Seq<char> {
    seq!['\n']
}

pub open spec fn event_prefix() -> Seq<char> {
    seq!['e', 'v', 'e', 'n', 't', ':']
}

pub open spec fn data_prefix() -> Seq<char> {
    seq!['d', 'a', 't', 'a', ':']
}

pub open spec fn has_prefix(s: Seq<char>, p: Seq<char>) -> bool {
    p.len() <= s.len() && s.take(p.len() as int) == p
}

/// Ends the event being assembled: its data lines are joined with `\n`, and
/// it is kept when it has data or an `event:` value.
pub open spec fn flush_spec(st: SseStateV) -> SseStateV {
    if st.event is None && st.data.len() == 0 {
        st
    } else {
        let ev = SseEventV { event: st.event, data: join_spec(st.data, newline_char_seq()) };
        SseStateV {
            event: None,
            data: Seq::empty(),
            out: if ev.data.len() > 0 || ev.event is Some { st.out.push(ev) } else { st.out },
        }
    }
}

/// What one line does to the state.
pub open spec fn line_spec(st: SseStateV, line: Seq<char>) -> SseStateV {
    if line.len() == 0 {
        flush_spec(st)
    } else if line[0] == ':' {
        st
    } else if has_prefix(line, event_prefix()) {
        SseStateV { event: Some(trim_spec(line.skip(6))), ..st }
    } else if has_prefix(line, data_prefix()) {
        SseStateV { data: st.data.push(trim_start_spec(line.skip(5))), ..st }
    } else {
        st
    }
}

/// The position of the first `\n` byte.
pub open spec fn newline_index(buf: Seq<u8>) -> Option<int>
    decreases buf.len(),
{
    if buf.len() == 0 {
        None
    } else if buf[0] == 10u8 {
        Some(0)
    } else {
        match newline_index(buf.drop_first()) {
            Some(i) => Some(i + 1),
            None => None,
        }
    }
}

/// The text of a line read up to (not including) its `\n`: a final `\r` is
/// dropped and the bytes are decoded as `String::from_utf8_lossy` does.
pub open spec fn line_text(raw: Seq<u8>) -> Seq<char> {
    if raw.len() > 0 && raw.last() == 13u8 {
        lossy_text(raw.drop_last())
    } else {
        lossy_text(raw)
    }
}

/// Reads every complete line of `buf` into the state; returns the new state
/// and the bytes after the last `\n`.
pub open spec fn drain_spec(st: SseStateV, buf: Seq<u8>) -> (SseStateV, Seq<u8>)
    decreases buf.len(),
{
    match newline_index(buf) {
        Some(i) => if 0 <= i < buf.len() {
            drain_spec(line_spec(st, line_text(buf.take(i))), buf.skip(i + 1))
        } else {
            (st, buf)
        },
        None => (st, buf),
    }
}

/// The end of the stream: the bytes left without a `\n` form a last line
/// (decoded as they are), then the event being assembled ends.
pub open spec fn finish_spec(st: SseStateV, buf: Seq<u8>) -> SseStateV {
    if buf.len() > 0 {
        flush_spec(line_spec(st, lossy_text(buf)))
    } else {
        flush_spec(st)
    }
}

/// All events of a whole body read at once.
pub open spec fn events_of(body: Seq<u8>) -> Seq<SseEventV> {
    let (st, rest) = drain_spec(initial_state(), body);
    finish_spec(st, rest).out
}

proof fn lemma_newline_index(buf: Seq<u8>)
    ensures
        match newline_index(buf) {
            Some(i) => 0 <= i < buf.len() && buf[i] == 10u8 && forall|j: int|
                0 <= j < i ==> buf[j] != 10u8,
            None => forall|j: int| 0 <= j < buf.len() ==> buf[j] != 10u8,
        },
    decreases buf.len(),
{
    if buf.len() > 0 && buf[0] != 10u8 {
        lemma_newline_index(buf.drop_first());
        match newline_index(buf.drop_first()) {
            Some(i) => {
                assert forall|j: int| 0 <= j < i + 1 implies buf[j] != 10u8 by {
                    if j > 0 {
                        assert(buf[j] == buf.drop_first()[j - 1]);
                    }
                }
            },
            None => {
                assert forall|j: int| 0 <= j < buf.len() implies buf[j] != 10u8 by {
                    if j > 0 {
                        assert(buf[j] == buf.drop_first()[j - 1]);
                    }
                }
            },
        }
    }
}

proof fn lemma_newline_index_unique(buf: Seq<u8>, i: int)
    requires
        0 <= i < buf.len(),
        buf[i] == 10u8,
        forall|j: int| 0 <= j < i ==> buf[j] != 10u8,
    ensures
        newline_index(buf) == Some(i),
{
    lemma_newline_index(buf);
    match newline_index(buf) {
        Some(k) => {
            if k < i {
                assert(buf[k] != 10u8);
            } else if k > i {
                assert(buf[i] != 10u8);
            }
        },
        None => {
            assert(buf[i] != 10u8);
        },
    }
}

proof fn lemma_newline_index_none(buf: Seq<u8>)
    requires
        forall|j: int| 0 <= j < buf.len() ==> buf[j] != 10u8,
    ensures
        newline_index(buf) is None,
{
    lemma_newline_index(buf);
    if let Some(k) = newline_index(buf) {
        assert(buf[k] != 10u8);
    }
}

proof fn lemma_newline_index_concat(a: Seq<u8>, b: Seq<u8>)
    ensures
        newline_index(a) matches Some(i) ==> newline_index(a + b) == Some(i),
        newline_index(a) is None ==> match newline_index(b) {
            Some(k) => newline_index(a + b) == Some(a.len() + k),
            None => newline_index(a + b) is None,
        },
{
    lemma_newline_index(a);
    lemma_newline_index(b);
    let ab = a + b;
    match newline_index(a) {
        Some(i) => {
            assert(ab[i] == a[i]);
            assert forall|j: int| 0 <= j < i implies ab[j] != 10u8 by {
                assert(ab[j] == a[j]);
            }
            lemma_newline_index_unique(ab, i);
        },
        None => {
            match newline_index(b) {
                Some(k) => {
                    assert(ab[a.len() + k] == b[k]);
                    assert forall|j: int| 0 <= j < a.len() + k implies ab[j] != 10u8 by {
                        if j < a.len() {
                            assert(ab[j] == a[j]);
                        } else {
                            assert(ab[j] == b[j - a.len()]);
                        }
                    }
                    lemma_newline_index_unique(ab, a.len() + k);
                },
                None => {
                    assert forall|j: int| 0 <= j < ab.len() implies ab[j] != 10u8 by {
                        if j < a.len() {
                            assert(ab[j] == a[j]);
                        } else {
                            assert(ab[j] == b[j - a.len()]);
                        }
                    }
                    lemma_newline_index_none(ab);
                },
            }
        },
    }
}

/// The bytes that reading leaves over hold no `\n`.
pub proof fn lemma_drain_rest_has_no_newline(st: SseStateV, buf: Seq<u8>)
    ensures
        newline_index(drain_spec(st, buf).1) is None,
    decreases buf.len(),
{
    lemma_newline_index(buf);
    if let Some(i) = newline_index(buf) {
        lemma_drain_rest_has_no_newline(line_spec(st, line_text(buf.take(i))), buf.skip(i + 1));
    }
}

/// Reading is indifferent to where the byte stream is cut into chunks:
/// reading `a` and then `b` after what `a` left over gives the same state and
/// the same left-over bytes as reading `a + b` at once.
pub proof fn lemma_chunking_invariant(st: SseStateV, a: Seq<u8>, b: Seq<u8>)
    ensures
        ({
            let (st1, rest1) = drain_spec(st, a);
            drain_spec(st1, rest1 + b) == drain_spec(st, a + b)
        }),
    decreases a.len(),
{
    lemma_newline_index(a);
    lemma_newline_index_concat(a, b);
    match newline_index(a) {
        Some(i) => {
            let st1 = line_spec(st, line_text(a.take(i)));
            let ab = a + b;
            assert(ab.take(i) =~= a.take(i));
            assert(ab.skip(i + 1) =~= a.skip(i + 1) + b);
            lemma_chunking_invariant(st1, a.skip(i + 1), b);
        },
        None => {},
    }
}

/// For any cut of a body into two chunks, the events read are those of the
/// whole body.
pub proof fn lemma_events_independent_of_chunks(a: Seq<u8>, b: Seq<u8>)
    ensures
        ({
            let (st1, rest1) = drain_spec(initial_state(), a);
            let (st2, rest2) = drain_spec(st1, rest1 + b);
            finish_spec(st2, rest2).out == events_of(a + b)
        }),
{
    lemma_chunking_invariant(initial_state(), a, b);
}

/// `st` with the events `p` read before its own.
pub open spec fn with_prefix(st: SseStateV, p: Seq<SseEventV>) -> SseStateV {
    SseStateV { out: p + st.out, ..st }
}

proof fn lemma_flush_prefix(st: SseStateV, p: Seq<SseEventV>)
    ensures
        flush_spec(with_prefix(st, p)) == with_prefix(flush_spec(st), p),
{
    if !(st.event is None && st.data.len() == 0) {
        let ev = SseEventV { event: st.event, data: join_spec(st.data, newline_char_seq()) };
        assert((p + st.out).push(ev) =~= p + st.out.push(ev));
    }
}

proof fn lemma_line_prefix(st: SseStateV, p: Seq<SseEventV>, line: Seq<char>)
    ensures
        line_spec(with_prefix(st, p), line) == with_prefix(line_spec(st, line), p),
{
    lemma_flush_prefix(st, p);
}

proof fn lemma_drain_prefix(st: SseStateV, p: Seq<SseEventV>, buf: Seq<u8>)
    ensures
        drain_spec(with_prefix(st, p), buf) == (
            with_prefix(drain_spec(st, buf).0, p),
            drain_spec(st, buf).1,
        ),
    decreases buf.len(),
{
    lemma_newline_index(buf);
    match newline_index(buf) {
        Some(i) => {
            let line = line_text(buf.take(i));
            lemma_line_prefix(st, p, line);
            lemma_drain_prefix(line_spec(st, line), p, buf.skip(i + 1));
        },
        None => {},
    }
}

proof fn lemma_finish_prefix(st: SseStateV, p: Seq<SseEventV>, buf: Seq<u8>)
    ensures
        finish_spec(with_prefix(st, p), buf) == with_prefix(finish_spec(st, buf), p),
{
    if buf.len() > 0 {
        lemma_line_prefix(st, p, lossy_text(buf));
        lemma_flush_prefix(line_spec(st, lossy_text(buf)), p);
    } else {
        lemma_flush_prefix(st, p);
    }
}

proof fn lemma_flush_clears(st: SseStateV)
    ensures
        flush_spec(st).event is None,
        flush_spec(st).data.len() == 0,
        flush_spec(flush_spec(st)) == flush_spec(st),
{
}

/// Line reader with the state of the event being assembled.
pub struct SseParser {
    buf: Vec<u8>,
    pending: VecDeque<SseEvent>,
    current_event: Option<String>,
    current_data: Vec<String>,
}

impl SseParser {
    pub closed spec fn state(&self) -> SseStateV {
        SseStateV {
            event: self.current_event.deep_view(),
            data: self.current_data.deep_view(),
            out: self.pending.deep_view(),
        }
    }

    /// The bytes received after the last `\n`.
    pub closed spec fn buffered(&self) -> Seq<u8> {
        self.buf@
    }

    pub fn new() -> (r: Self)
        ensures
            r.state() == initial_state(),
            r.buffered() == Seq::<u8>::empty(),
    {
        let r = SseParser {
            buf: Vec::new(),
            pending: VecDeque::new(),
            current_event: None,
            current_data: Vec::new(),
        };
        proof {
            assert(r.current_data.deep_view() =~= Seq::<Seq<char>>::empty());
            assert(r.pending.deep_view() =~= Seq::<SseEventV>::empty());
        }
        r
    }

    /// Appends a chunk of the body and reads every line it completes.
    pub fn push_bytes(&mut self, chunk: &[u8])
        ensures
            (final(self).state(), final(self).buffered()) == drain_spec(
                old(self).state(),
                old(self).buffered() + chunk@,
            ),
    {
        let mut i: usize = 0;
        let ghost buf0 = self.buf@;
        while i < chunk.len()
            invariant
                0 <= i <= chunk@.len(),
                self.buf@ == buf0 + chunk@.take(i as int),
                self.state() == old(self).state(),
                buf0 == old(self).buffered(),
            decreases chunk@.len() - i,
        {
            self.buf.push(chunk[i]);
            proof {
                assert(chunk@.take(i + 1) =~= chunk@.take(i as int).push(chunk@[i as int]));
            }
            i = i + 1;
        }
        proof {
            assert(chunk@.take(chunk@.len() as int) =~= chunk@);
        }
        self.drain_lines();
    }

    /// The end of the body: what is left without a `\n` is read as a last
    /// line, then the event being assembled ends.
    pub fn finalize(&mut self)
        ensures
            final(self).state() == finish_spec(old(self).state(), old(self).buffered()),
            final(self).buffered() == Seq::<u8>::empty(),
    {
        if self.buf.len() > 0 {
            let line = utf8_lossy(self.buf.as_slice());
            self.buf.clear();
            self.process_line(line.as_str());
        }
        self.flush_event();
    }

    fn find_newline(buf: &Vec<u8>) -> (r: Option<usize>)
        ensures
            match r {
                Some(i) => newline_index(buf@) == Some(i as int),
                None => newline_index(buf@) is None,
            },
    {
        let mut i: usize = 0;
        while i < buf.len()
            invariant
                0 <= i <= buf@.len(),
                forall|j: int| 0 <= j < i ==> buf@[j] != 10u8,
            decreases buf@.len() - i,
        {
            if buf[i] == 10u8 {
                proof {
                    lemma_newline_index_unique(buf@, i as int);
                }
                return Some(i);
            }
            i = i + 1;
        }
        proof {
            lemma_newline_index_none(buf@);
        }
        None
    }

    fn drain_lines(&mut self)
        ensures
            (final(self).state(), final(self).buffered()) == drain_spec(
                old(self).state(),
                old(self).buffered(),
            ),
    {
        loop
            invariant
                drain_spec(self.state(), self.buf@) == drain_spec(
                    old(self).state(),
                    old(self).buffered(),
                ),
            ensures
                (self.state(), self.buf@) == drain_spec(old(self).state(), old(self).buffered()),
            decreases self.buf@.len(),
        {
            let pos = Self::find_newline(&self.buf);
            match pos {
                None => {
                    break;
                },
                Some(i) => {
                    let len = self.buf.len();
                    proof {
                        lemma_newline_index(self.buf@);
                        assert(i < len);
                    }
                    let ghost whole = self.buf@;
                    let mut raw = self.buf.split_off(i + 1);
                    std::mem::swap(&mut raw, &mut self.buf);
                    raw.pop();
                    proof {
                        assert(raw@ =~= whole.take(i as int));
                    }
                    if raw.len() > 0 && raw[raw.len() - 1] == 13u8 {
                        raw.pop();
                    }
                    let line = utf8_lossy(raw.as_slice());
                    proof {
                        assert(self.buf@ =~= whole.skip(i + 1));
                        assert(line@ == line_text(whole.take(i as int)));
                    }
                    self.process_line(line.as_str());
                },
            }
        }
    }

    fn starts_with_text(line: &str, n: usize, prefix: &str) -> (r: bool)
        requires
            n == line@.len(),
        ensures
            r == has_prefix(line@, prefix@),
    {
        let m = prefix.unicode_len();
        if m > n {
            return false;
        }
        let mut i: usize = 0;
        while i < m
            invariant
                m == prefix@.len(),
                m <= n == line@.len(),
                0 <= i <= m,
                forall|j: int| 0 <= j < i ==> line@[j] == prefix@[j],
            decreases m - i,
        {
            if line.get_char(i) != prefix.get_char(i) {
                proof {
                    assert(line@.take(m as int)[i as int] != prefix@[i as int]);
                }
                return false;
            }
            i = i + 1;
        }
        proof {
            assert(line@.take(m as int) =~= prefix@);
        }
        true
    }

    fn process_line(&mut self, line: &str)
        ensures
            final(self).state() == line_spec(old(self).state(), line@),
            final(self).buffered() == old(self).buffered(),
    {
        let n = line.unicode_len();
        if n == 0 {
            self.flush_event();
            return;
        }
        if line.get_char(0) == ':' {
            return;
        }
        proof {
            reveal_strlit("event:");
            reveal_strlit("data:");
            assert("event:"@ =~= event_prefix());
            assert("data:"@ =~= data_prefix());
        }
        if Self::starts_with_text(line, n, "event:") {
            let rest = line.substring_char(6, n);
            proof {
                assert(rest@ =~= line@.skip(6));
            }
            let v = str_trim(rest).to_string();
            self.current_event = Some(v);
            return;
        }
        if Self::starts_with_text(line, n, "data:") {
            let rest = line.substring_char(5, n);
            proof {
                assert(rest@ =~= line@.skip(5));
            }
            let v = str_trim_start(rest).to_string();
            self.current_data.push(v);
            proof {
                assert(self.current_data.deep_view() =~= old(self).current_data.deep_view().push(v@));
            }
        }
    }

    fn flush_event(&mut self)
        ensures
            final(self).state() == flush_spec(old(self).state()),
            final(self).buffered() == old(self).buffered(),
    {
        if self.current_event.is_none() && self.current_data.len() == 0 {
            proof {
                assert(self.current_data.deep_view() =~= Seq::<Seq<char>>::empty());
            }
            return;
        }
        proof {
            reveal_strlit("\n");
            assert("\n"@ =~= newline_char_seq());
        }
        let data = join_strings(&self.current_data, "\n");
        self.current_data = Vec::new();
        let event = self.current_event.take();
        let keep = data.as_str().unicode_len() > 0 || event.is_some();
        let ev = SseEvent { event, data };
        if keep {
            self.pending.push_back(ev);
        }
        proof {
            assert(self.current_data.deep_view() =~= Seq::<Seq<char>>::empty());
            assert(self.pending.deep_view() =~= flush_spec(old(self).state()).out);
        }
    }

    /// Takes the oldest complete event.
    pub fn pop_event(&mut self) -> (r: Option<SseEvent>)
        ensures
            old(self).state().out.len() == 0 ==> r is None && final(self).state() == old(
                self,
            ).state(),
            old(self).state().out.len() > 0 ==> (r matches Some(ev) && ev.deep_view() == old(
                self,
            ).state().out[0] && final(self).state() == (SseStateV {
                out: old(self).state().out.drop_first(),
                ..old(self).state()
            })),
            final(self).buffered() == old(self).buffered(),
    {
        let r = self.pending.pop_front();
        proof {
            if old(self).pending@.len() > 0 {
                assert(self.pending.deep_view() =~= old(self).state().out.drop_first());
            } else {
                assert(self.pending.deep_view() =~= old(self).state().out);
            }
        }
        r
    }
}

/// What the event stream does next.
pub enum SseStep {
    /// Hand out this event.
    Emit(SseEvent),
    /// The body has ended and every event has been handed out.
    Done,
    /// More bytes of the body are needed.
    NeedInput,
}

/// Reads an HTTP response body (the `inner` stream of byte chunks) into
/// [`SseEvent`]s. The decisions are made here; the polling of `inner` is done
/// by the caller, which reports each outcome with [`Self::on_bytes`] or
/// [`Self::on_end`].
pub struct SseByteStream<S> {
    pub inner: S,
    parser: SseParser,
    finished: bool,
    received: Ghost<Seq<u8>>,
    emitted: Ghost<Seq<SseEventV>>,
}

impl<S> SseByteStream<S> {
    pub closed spec fn state(&self) -> SseStateV {
        self.parser.state()
    }

    pub closed spec fn buffered(&self) -> Seq<u8> {
        self.parser.buffered()
    }

    pub closed spec fn is_finished(&self) -> bool {
        self.finished
    }

    /// The byte stream being read.
    pub closed spec fn source(&self) -> S {
        self.inner
    }

    /// Every byte of the body received so far, in order.
    pub closed spec fn received(&self) -> Seq<u8> {
        self.received@
    }

    /// Every event handed out so far, in order.
    pub closed spec fn emitted(&self) -> Seq<SseEventV> {
        self.emitted@
    }

    /// The events handed out followed by those pending are those of the
    /// bytes received: as far as they are read while the body goes on, all
    /// of them once it has ended.
    pub closed spec fn consistent(&self) -> bool {
        let whole = with_prefix(self.state(), self.emitted@);
        let (st, rest) = drain_spec(initial_state(), self.received@);
        if self.finished {
            &&& whole == finish_spec(st, rest)
            &&& self.buffered() == Seq::<u8>::empty()
        } else {
            (whole, self.buffered()) == (st, rest)
        }
    }

    pub fn new(inner: S) -> (r: Self)
        ensures
            r.source() == inner,
            r.state() == initial_state(),
            r.buffered() == Seq::<u8>::empty(),
            !r.is_finished(),
            r.received() == Seq::<u8>::empty(),
            r.emitted() == Seq::<SseEventV>::empty(),
            r.consistent(),
    {
        let r = SseByteStream {
            inner,
            parser: SseParser::new(),
            finished: false,
            received: Ghost(Seq::empty()),
            emitted: Ghost(Seq::empty()),
        };
        proof {
            assert(with_prefix(r.state(), r.emitted@) =~= initial_state());
        }
        r
    }

    /// The next step: a pending event first, in the order the events were
    /// read; otherwise the end once the body has ended; otherwise a request
    /// for more bytes.
    pub fn next_step(&mut self) -> (r: SseStep)
        ensures
            old(self).state().out.len() > 0 ==> (r matches SseStep::Emit(ev) && ev.deep_view()
                == old(self).state().out[0] && final(self).state() == (SseStateV {
                out: old(self).state().out.drop_first(),
                ..old(self).state()
            }) && final(self).emitted() == old(self).emitted().push(ev.deep_view())),
            old(self).state().out.len() == 0 ==> final(self).state() == old(self).state() && (
            if old(self).is_finished() {
                r is Done
            } else {
                r is NeedInput
            }) && final(self).emitted() == old(self).emitted(),
            final(self).buffered() == old(self).buffered(),
            final(self).is_finished() == old(self).is_finished(),
            final(self).source() == old(self).source(),
            final(self).received() == old(self).received(),
            old(self).consistent() ==> final(self).consistent(),
            old(self).consistent() && r is Done ==> final(self).emitted() == events_of(
                final(self).received(),
            ),
    {
        match self.parser.pop_event() {
            Some(ev) => {
                proof {
                    assert(old(self).emitted@.push(ev.deep_view()) + self.state().out
                        =~= old(self).emitted@ + old(self).state().out);
                }
                self.emitted = Ghost(self.emitted@.push(ev.deep_view()));
                SseStep::Emit(ev)
            },
            None => {
                if self.finished {
                    proof {
                        assert(self.emitted@ + self.state().out =~= self.emitted@);
                    }
                    SseStep::Done
                } else {
                    SseStep::NeedInput
                }
            },
        }
    }

    /// A chunk of the body arrived.
    pub fn on_bytes(&mut self, bytes: &[u8])
        ensures
            (final(self).state(), final(self).buffered()) == drain_spec(
                old(self).state(),
                old(self).buffered() + bytes@,
            ),
            final(self).is_finished() == old(self).is_finished(),
            final(self).source() == old(self).source(),
            final(self).received() == old(self).received() + bytes@,
            final(self).emitted() == old(self).emitted(),
            old(self).consistent() && !old(self).is_finished() ==> final(self).consistent(),
    {
        self.parser.push_bytes(bytes);
        proof {
            let e = old(self).emitted@;
            let recv = old(self).received@;
            lemma_drain_prefix(old(self).state(), e, old(self).buffered() + bytes@);
            let (st, rest) = drain_spec(initial_state(), recv);
            lemma_chunking_invariant(initial_state(), recv, bytes@);
        }
        self.received = Ghost(self.received@ + bytes@);
    }

    /// The body ended.
    pub fn on_end(&mut self)
        ensures
            final(self).state() == finish_spec(old(self).state(), old(self).buffered()),
            final(self).buffered() == Seq::<u8>::empty(),
            final(self).is_finished(),
            final(self).source() == old(self).source(),
            final(self).received() == old(self).received(),
            final(self).emitted() == old(self).emitted(),
            old(self).consistent() ==> final(self).consistent(),
    {
        self.parser.finalize();
        proof {
            let e = old(self).emitted@;
            let (st, rest) = drain_spec(initial_state(), old(self).received@);
            lemma_finish_prefix(old(self).state(), e, old(self).buffered());
            if old(self).finished && old(self).consistent() {
                assert(old(self).buffered() == Seq::<u8>::empty());
                lemma_flush_prefix(old(self).state(), e);
                let fin = finish_spec(st, rest);
                if rest.len() > 0 {
                    lemma_flush_clears(line_spec(st, lossy_text(rest)));
                } else {
                    lemma_flush_clears(st);
                }
                assert(with_prefix(old(self).state(), e) == fin);
                assert(flush_spec(fin) == fin);
            }
        }
        self.finished = true;
    }
}

/// Read to its end, the stream hands out exactly the events of the whole
/// body, in order, however the body came in chunks.
pub proof fn lemma_stream_hands_out_body_events<S>(s: SseByteStream<S>)
    requires
        s.consistent(),
        s.is_finished(),
        s.state().out.len() == 0,
    ensures
        s.emitted() == events_of(s.received()),
{
    assert(s.emitted() + s.state().out =~= s.emitted());
}

/// A line that starts with `data:` adds to the event being assembled the rest
/// of the line with its leading white space removed, whatever follows the
/// colon; nothing else changes.
pub proof fn lemma_data_line_adds_data(st: SseStateV, line: Seq<char>)
    requires
        line.len() >= 5,
        line.take(5) == seq!['d', 'a', 't', 'a', ':'],
    ensures
        line_spec(st, line) == (SseStateV { data: st.data.push(trim_start_spec(line.skip(5))), ..st }),
{
    assert(line[0] == line.take(5)[0]);
    assert(!has_prefix(line, event_prefix())) by {
        if has_prefix(line, event_prefix()) {
            assert(line.take(6)[0] == line[0]);
        }
    }
    assert(data_prefix() =~= seq!['d', 'a', 't', 'a', ':']);
}

/// A `data:` line followed by an empty line, read from the start, gives one
/// event without a name whose data is the text after `data:` with its
/// leading white space removed (no event when that text is empty).
pub proof fn lemma_data_line_event(text: Seq<char>)
    ensures
        ({
            let line = seq!['d', 'a', 't', 'a', ':'] + text;
            let d = trim_start_spec(text);
            line_spec(line_spec(initial_state(), line), Seq::empty()).out == if d.len() > 0 {
                seq![SseEventV { event: None, data: d }]
            } else {
                Seq::<SseEventV>::empty()
            }
        }),
{
    let line = seq!['d', 'a', 't', 'a', ':'] + text;
    assert(line.take(5) =~= seq!['d', 'a', 't', 'a', ':']);
    assert(line.skip(5) =~= text);
    lemma_data_line_adds_data(initial_state(), line);
    let d = trim_start_spec(text);
    let st = line_spec(initial_state(), line);
    assert(st.data =~= seq![d]);
    assert(join_spec(seq![d], newline_char_seq()) == d) by {
        reveal_with_fuel(join_spec, 2);
        assert(seq![d].drop_last() =~= Seq::<Seq<char>>::empty());
    }
    assert(Seq::<SseEventV>::empty().push(SseEventV { event: None, data: d }) =~= seq![
        SseEventV { event: None, data: d },
    ]);
}

proof fn lemma_encode_concat(a: Seq<char>, b: Seq<char>)
    ensures
        encode_utf8(a + b) == encode_utf8(a) + encode_utf8(b),
    decreases a.len(),
{
    if a.len() == 0 {
        assert(a + b =~= b);
        assert(Seq::<u8>::empty() + encode_utf8(b) =~= encode_utf8(b));
    } else {
        assert((a + b)[0] == a[0]);
        assert((a + b).drop_first() =~= a.drop_first() + b);
        lemma_encode_concat(a.drop_first(), b);
        let h = encode_scalar(a[0] as u32);
        assert(h + (encode_utf8(a.drop_first()) + encode_utf8(b)) =~= (h + encode_utf8(
            a.drop_first(),
        )) + encode_utf8(b));
    }
}

proof fn lemma_high_bytes(x: u8)
    ensures
        (0xC0u8 | x) != 10u8,
        (0xC0u8 | x) != 13u8,
        (0x80u8 | x) != 10u8,
        (0x80u8 | x) != 13u8,
        (0xE0u8 | x) != 10u8,
        (0xE0u8 | x) != 13u8,
        (0xF0u8 | x) != 10u8,
        (0xF0u8 | x) != 13u8,
{
    assert((0xC0u8 | x) != 10u8) by (bit_vector);
    assert((0xC0u8 | x) != 13u8) by (bit_vector);
    assert((0x80u8 | x) != 10u8) by (bit_vector);
    assert((0x80u8 | x) != 13u8) by (bit_vector);
    assert((0xE0u8 | x) != 10u8) by (bit_vector);
    assert((0xE0u8 | x) != 13u8) by (bit_vector);
    assert((0xF0u8 | x) != 10u8) by (bit_vector);
    assert((0xF0u8 | x) != 13u8) by (bit_vector);
}

/// The UTF-8 bytes of a character hold a `\n` byte only for `\n`, and end
/// in a `\r` byte only for `\r`.
proof fn lemma_scalar_bytes(c: char)
    ensures
        encode_scalar(c as u32).len() >= 1,
        forall|j: int|
            0 <= j < encode_scalar(c as u32).len() && #[trigger] encode_scalar(c as u32)[j] == 10u8
                ==> c == '\n',
        encode_scalar(c as u32).last() == 13u8 ==> c == '\r',
{
    let v = c as u32;
    let e = encode_scalar(v);
    if has_width_1_encoding(v) {
        assert(v <= 0x7f ==> ((v & 0x7f) as u8) as u32 == v) by (bit_vector);
        assert(e[0] as u32 == v);
        if e[0] == 10u8 {
            assert(v == 10);
            assert(c == '\n');
        }
        if e[0] == 13u8 {
            assert(v == 13);
            assert(c == '\r');
        }
    } else if has_width_2_encoding(v) {
        lemma_high_bytes(((v >> 6) & 0x1F) as u8);
        lemma_high_bytes((v & 0x3F) as u8);
    } else if has_width_3_encoding(v) {
        lemma_high_bytes(((v >> 12) & 0x0F) as u8);
        lemma_high_bytes(((v >> 6) & 0x3F) as u8);
        lemma_high_bytes((v & 0x3F) as u8);
    } else {
        lemma_high_bytes(((v >> 18) & 0x7) as u8);
        lemma_high_bytes(((v >> 12) & 0x3F) as u8);
        lemma_high_bytes(((v >> 6) & 0x3F) as u8);
        lemma_high_bytes((v & 0x3F) as u8);
    }
}

/// Text without `\n` has no `\n` byte.
proof fn lemma_encode_no_newline(t: Seq<char>)
    requires
        forall|i: int| 0 <= i < t.len() ==> t[i] != '\n',
    ensures
        forall|j: int| 0 <= j < encode_utf8(t).len() ==> encode_utf8(t)[j] != 10u8,
    decreases t.len(),
{
    if t.len() > 0 {
        lemma_encode_no_newline(t.drop_first());
        lemma_scalar_bytes(t[0]);
        let h = encode_scalar(t[0] as u32);
        let r = encode_utf8(t.drop_first());
        assert forall|j: int| 0 <= j < encode_utf8(t).len() implies encode_utf8(t)[j] != 10u8 by {
            if j < h.len() {
                assert(encode_utf8(t)[j] == h[j]);
            } else {
                assert(encode_utf8(t)[j] == r[j - h.len()]);
                assert(t.drop_first()[0] == t[1]);
            }
        }
    }
}

/// Text that does not end in `\r` has bytes that do not end in a `\r` byte.
proof fn lemma_encode_last(t: Seq<char>)
    requires
        t.len() > 0,
        t.last() != '\r',
    ensures
        encode_utf8(t).len() > 0,
        encode_utf8(t).last() != 13u8,
{
    let front = t.drop_last();
    assert(t =~= front + seq![t.last()]);
    lemma_encode_concat(front, seq![t.last()]);
    lemma_scalar_bytes(t.last());
    reveal_with_fuel(encode_utf8, 2);
    assert(seq![t.last()].drop_first() =~= Seq::<char>::empty());
    assert(encode_scalar(t.last() as u32) + Seq::<u8>::empty() =~= encode_scalar(t.last() as u32));
    assert(encode_utf8(seq![t.last()]) =~= encode_scalar(t.last() as u32));
}

/// The body made of a `data:` line (any text after the colon, in UTF-8,
/// without a line break and not ending in `\r`) and an empty line gives
/// exactly one event without a name, whose data is that text with its
/// leading white space removed (none when that is empty).
pub proof fn lemma_data_line_body_events(text: Seq<char>)
    requires
        forall|i: int| 0 <= i < text.len() ==> text[i] != '\n',
        text.len() > 0 ==> text.last() != '\r',
    ensures
        ({
            let d = trim_start_spec(text);
            events_of(encode_utf8(seq!['d', 'a', 't', 'a', ':'] + text) + seq![10u8, 10u8])
                == if d.len() > 0 {
                seq![SseEventV { event: None, data: d }]
            } else {
                Seq::<SseEventV>::empty()
            }
        }),
{
    broadcast use vstd::utf8::encode_utf8_valid_utf8, vstd::utf8::encode_utf8_decode_utf8;

    let line = seq!['d', 'a', 't', 'a', ':'] + text;
    let enc = encode_utf8(line);
    let body = enc + seq![10u8, 10u8];
    assert forall|i: int| 0 <= i < line.len() implies line[i] != '\n' by {
        if i >= 5 {
            assert(line[i] == text[i - 5]);
        }
    }
    lemma_encode_no_newline(line);
    assert(line.last() != '\r') by {
        if text.len() == 0 {
            assert(line.last() == ':');
        } else {
            assert(line.last() == text.last());
        }
    }
    lemma_encode_last(line);
    lemma_newline_index(body);
    let n = enc.len() as int;
    assert(body[n] == 10u8);
    assert forall|j: int| 0 <= j < n implies body[j] != 10u8 by {
        assert(body[j] == enc[j]);
    }
    assert(newline_index(body) == Some(n)) by {
        match newline_index(body) {
            Some(i) => {
                if i < n {
                    assert(body[i] == enc[i]);
                } else if i > n {
                    assert(body[n] == 10u8);
                }
            },
            None => {},
        }
    }
    assert(body.take(n) =~= enc);
    assert(line_text(enc) == line);
    let st1 = line_spec(initial_state(), line);
    let rest = body.skip(n + 1);
    assert(rest =~= seq![10u8]);
    assert(newline_index(rest) == Some(0int));
    assert(rest.take(0) =~= Seq::<u8>::empty());
    assert(valid_utf8(Seq::<u8>::empty()));
    assert(decode_utf8(Seq::<u8>::empty()) =~= Seq::<char>::empty());
    assert(line_text(Seq::<u8>::empty()) == Seq::<char>::empty());
    let st2 = line_spec(st1, Seq::empty());
    assert(rest.skip(1) =~= Seq::<u8>::empty());
    assert(newline_index(Seq::<u8>::empty()) is None);
    assert(drain_spec(st2, Seq::<u8>::empty()) == (st2, Seq::<u8>::empty()));
    assert(line_spec(st1, line_text(rest.take(0))) == st2);
    assert(drain_spec(st1, rest) == drain_spec(st2, rest.skip(1)));
    assert(drain_spec(st1, rest) == (st2, Seq::<u8>::empty()));
    assert(drain_spec(initial_state(), body) == (st2, Seq::<u8>::empty()));
    lemma_flush_clears(st1);
    assert(flush_spec(st2) == st2);
    lemma_data_line_event(text);
}

} // verus!
