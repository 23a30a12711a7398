//! The router: one input fanned out to a fixed, ordered list of outputs.
//!
//! The router decides; the caller does the transport work. While the router
//! runs, the caller reads a chunk from the input and hands the report to
//! `on_read`; then, for as long as `next_output` names an output, it sends
//! `chunk()` to that output and hands the outcome to `on_send`. A failed send
//! is counted against its output and the next output is served; only the end
//! of the input, or a read error, stops the router.
use vstd::prelude::*;
use crate::stream_read::StreamReadResult;
use vstd::slice::slice_to_vec;

verus! {

/// Why a router stopped.
#[derive(Debug, Clone, PartialEq, Eq)]
pub enum StopReason {
    /// The input reported the end of its data.
    EndOfData,
    /// Reading the input failed.
    ReadError(String),
}

/// The state of a router as plain values.
pub struct RouterView {
    /// `None` while the router runs.
    pub stop: Option<StopReason>,
    /// The number of chunks taken from the input.
    pub chunks: nat,
    /// The output that gets the current chunk next; the number of outputs
    /// once every output has had it.
    pub next: nat,
    /// The chunk being handed out.
    pub chunk: Seq<u8>,
    /// For each output, the number of chunks sent to it.
    pub delivered: Seq<nat>,
    /// For each output, the number of sends to it that failed.
    pub failed: Seq<nat>,
    /// For each output, whether the last send to it failed.
    pub failing: Seq<bool>,
}

pub open spec fn outputs(v: RouterView) -> nat {
    v.delivered.len()
}

/// The number of sends tried on output `i`.
pub open spec fn attempts(v: RouterView, i: int) -> nat {
    v.delivered[i] + v.failed[i]
}

/// Whether the router waits for the next read of its input.
pub open spec fn awaiting_read(v: RouterView) -> bool {
    v.stop is None && v.next == outputs(v)
}

/// A consistent router state: every output before `next` has been tried on
/// every chunk, every output from `next` on has been tried on every chunk
/// but the current one, and a stopped router hands nothing out.
pub open spec fn view_wf(v: RouterView) -> bool {
    &&& outputs(v) > 0
    &&& v.failed.len() == outputs(v)
    &&& v.failing.len() == outputs(v)
    &&& v.next <= outputs(v)
    &&& v.next < outputs(v) ==> v.chunks >= 1 && v.stop is None
    &&& forall|i: int|
        0 <= i < outputs(v) ==> #[trigger] attempts(v, i) == if i < v.next {
            v.chunks
        } else {
            (v.chunks - 1) as nat
        }
}

/// A new router over `n` outputs.
pub open spec fn initial_view(n: nat) -> RouterView {
    RouterView {
        stop: None,
        chunks: 0,
        next: n,
        chunk: Seq::empty(),
        delivered: Seq::new(n, |i: int| 0nat),
        failed: Seq::new(n, |i: int| 0nat),
        failing: Seq::new(n, |i: int| false),
    }
}

/// What a read report does to a router that waits for it: a chunk of one
/// byte or more is handed out to every output, from the first; an empty
/// datagram changes nothing; the end of the data or an error stops it.
pub open spec fn read_step(v: RouterView, r: StreamReadResult, data: Seq<u8>) -> RouterView {
    match r {
        StreamReadResult::BytesRead(n) => if n == 0 {
            v
        } else {
            RouterView {
                stop: v.stop,
                chunks: v.chunks + 1,
                next: 0,
                chunk: data,
                delivered: v.delivered,
                failed: v.failed,
                failing: v.failing,
            }
        },
        StreamReadResult::Finished => RouterView {
            stop: Some(StopReason::EndOfData),
            chunks: v.chunks,
            next: v.next,
            chunk: v.chunk,
            delivered: v.delivered,
            failed: v.failed,
            failing: v.failing,
        },
        StreamReadResult::Error(e) => RouterView {
            stop: Some(StopReason::ReadError(e)),
            chunks: v.chunks,
            next: v.next,
            chunk: v.chunk,
            delivered: v.delivered,
            failed: v.failed,
            failing: v.failing,
        },
    }
}

/// What the outcome of the send to output `next` does: it is counted
/// against that output, the next output is served, and the router runs on.
pub open spec fn send_step(v: RouterView, ok: bool) -> RouterView {
    let i = v.next as int;
    RouterView {
        stop: v.stop,
        chunks: v.chunks,
        next: v.next + 1,
        chunk: v.chunk,
        delivered: if ok {
            v.delivered.update(i, v.delivered[i] + 1)
        } else {
            v.delivered
        },
        failed: if ok {
            v.failed
        } else {
            v.failed.update(i, v.failed[i] + 1)
        },
        failing: v.failing.update(i, !ok),
    }
}

/// Sends the current chunk to the outputs from `next` on, with the given
/// outcomes in output order.
pub open spec fn deliver(v: RouterView, oks: Seq<bool>) -> RouterView
    decreases oks.len(),
{
    if oks.len() == 0 {
        v
    } else {
        deliver(send_step(v, oks[0]), oks.drop_first())
    }
}

/// Runs a router over a list of chunks read from its input: each chunk is
/// read, then sent to every output with the outcomes given for it.
pub open spec fn route(v: RouterView, chunks: Seq<Seq<u8>>, outcomes: Seq<Seq<bool>>) -> RouterView
    decreases chunks.len(),
{
    if chunks.len() == 0 {
        v
    } else {
        route(
            deliver(
                read_step(v, StreamReadResult::BytesRead(chunks[0].len() as usize), chunks[0]),
                outcomes[0],
            ),
            chunks.drop_first(),
            outcomes.drop_first(),
        )
    }
}

proof fn lemma_deliver(v: RouterView, oks: Seq<bool>)
    requires
        view_wf(v),
        v.stop is None,
        v.next + oks.len() == outputs(v),
    ensures
        view_wf(deliver(v, oks)),
        deliver(v, oks).stop == v.stop,
        deliver(v, oks).chunks == v.chunks,
        deliver(v, oks).next == outputs(v),
        outputs(deliver(v, oks)) == outputs(v),
        forall|i: int| 0 <= i < outputs(v) ==> #[trigger] attempts(deliver(v, oks), i) == v.chunks,
    decreases oks.len(),
{
    if oks.len() == 0 {
    } else {
        let w = send_step(v, oks[0]);
        let k = v.next as int;
        assert forall|j: int| 0 <= j < outputs(w) implies #[trigger] attempts(w, j) == if j < w.next {
            w.chunks
        } else {
            (w.chunks - 1) as nat
        } by {
            if j != k {
                assert(attempts(w, j) == attempts(v, j));
            } else {
                assert(attempts(v, k) == v.chunks - 1);
                if oks[0] {
                    assert(w.delivered[k] == v.delivered[k] + 1);
                    assert(w.failed[k] == v.failed[k]);
                } else {
                    assert(w.failed[k] == v.failed[k] + 1);
                    assert(w.delivered[k] == v.delivered[k]);
                }
            }
        }
        lemma_deliver(w, oks.drop_first());
    }
}

proof fn lemma_route(v: RouterView, chunks: Seq<Seq<u8>>, outcomes: Seq<Seq<bool>>)
    requires
        view_wf(v),
        awaiting_read(v),
        outcomes.len() == chunks.len(),
        forall|k: int| 0 <= k < chunks.len() ==> 0 < (#[trigger] chunks[k]).len() <= usize::MAX,
        forall|k: int| 0 <= k < chunks.len() ==> (#[trigger] outcomes[k]).len() == outputs(v),
    ensures
        view_wf(route(v, chunks, outcomes)),
        awaiting_read(route(v, chunks, outcomes)),
        route(v, chunks, outcomes).chunks == v.chunks + chunks.len(),
        outputs(route(v, chunks, outcomes)) == outputs(v),
    decreases chunks.len(),
{
    if chunks.len() > 0 {
        let r = read_step(v, StreamReadResult::BytesRead(chunks[0].len() as usize), chunks[0]);
        assert(chunks[0].len() > 0);
        assert(outcomes[0].len() == outputs(v));
        assert forall|i: int| 0 <= i < outputs(r) implies #[trigger] attempts(r, i) == if i < r.next {
            r.chunks
        } else {
            (r.chunks - 1) as nat
        } by {
            assert(attempts(r, i) == attempts(v, i));
        }
        lemma_deliver(r, outcomes[0]);
        let d = deliver(r, outcomes[0]);
        assert forall|k: int| 0 <= k < chunks.drop_first().len() implies 0 < (
        #[trigger] chunks.drop_first()[k]).len() <= usize::MAX by {
            assert(chunks.drop_first()[k] == chunks[k + 1]);
        }
        assert forall|k: int| 0 <= k < chunks.drop_first().len() implies (
        #[trigger] outcomes.drop_first()[k]).len() == outputs(d) by {
            assert(outcomes.drop_first()[k] == outcomes[k + 1]);
        }
        lemma_route(d, chunks.drop_first(), outcomes.drop_first());
    }
}

/// A router whose input yields `chunks` (each of one byte or more) and then
/// the end of its data stops with every output tried on exactly those
/// chunks: each output had one send per chunk, whatever the outcomes of the
/// sends, and once stopped no output is served again.
pub proof fn lemma_stops_after_n_chunks(
    n: nat,
    chunks: Seq<Seq<u8>>,
    outcomes: Seq<Seq<bool>>,
    rest: Seq<u8>,
)
    requires
        n > 0,
        outcomes.len() == chunks.len(),
        forall|k: int| 0 <= k < chunks.len() ==> 0 < (#[trigger] chunks[k]).len() <= usize::MAX,
        forall|k: int| 0 <= k < chunks.len() ==> (#[trigger] outcomes[k]).len() == n,
    ensures
        ({
            let before = route(initial_view(n), chunks, outcomes);
            let after = read_step(before, StreamReadResult::Finished, rest);
            &&& before.stop is None
            &&& after.stop == Some(StopReason::EndOfData)
            &&& after.chunks == chunks.len()
            &&& after.next == outputs(after)
            &&& outputs(after) == n
            &&& forall|i: int| 0 <= i < n ==> #[trigger] attempts(after, i) == chunks.len()
        }),
{
    let v = initial_view(n);
    assert forall|i: int| 0 <= i < outputs(v) implies #[trigger] attempts(v, i) == if i < v.next {
        v.chunks
    } else {
        (v.chunks - 1) as nat
    } by {}
    lemma_route(v, chunks, outcomes);
    let before = route(v, chunks, outcomes);
    let after = read_step(before, StreamReadResult::Finished, rest);
    assert forall|i: int| 0 <= i < n implies #[trigger] attempts(after, i) == chunks.len() by {
        assert(attempts(after, i) == attempts(before, i));
    }
}

/// The router's state machine.
pub struct Router {
    stop: Option<StopReason>,
    chunks: u64,
    next: usize,
    chunk: Vec<u8>,
    delivered: Vec<u64>,
    failed: Vec<u64>,
    failing: Vec<bool>,
}

impl View for Router {
    type V = RouterView;

    closed spec fn view(&self) -> RouterView {
        RouterView {
            stop: self.stop,
            chunks: self.chunks as nat,
            next: self.next as nat,
            chunk: self.chunk@,
            delivered: self.delivered@.map_values(|x: u64| x as nat),
            failed: self.failed@.map_values(|x: u64| x as nat),
            failing: self.failing@,
        }
    }
}

impl Router {
    pub closed spec fn wf(&self) -> bool {
        &&& view_wf(self@)
        &&& self.delivered@.len() == self.failed@.len()
        &&& self.delivered@.len() == self.failing@.len()
    }

    /// A running router over `n` outputs, waiting for its first read; `None`
    /// when there is no output.
    pub fn new(n: usize) -> (r: Option<Router>)
        ensures
            n == 0 <==> r is None,
            r matches Some(router) ==> router.wf() && router@ == initial_view(n as nat),
    {
        if n == 0 {
            return None;
        }
        let mut delivered: Vec<u64> = Vec::new();
        let mut failed: Vec<u64> = Vec::new();
        let mut failing: Vec<bool> = Vec::new();
        let mut i: usize = 0;
        while i < n
            invariant
                i <= n,
                delivered@.len() == i,
                failed@.len() == i,
                failing@.len() == i,
                forall|j: int| 0 <= j < i ==> delivered@[j] == 0 && failed@[j] == 0 && !failing@[j],
            decreases n - i,
        {
            delivered.push(0);
            failed.push(0);
            failing.push(false);
            i += 1;
        }
        let router = Router { stop: None, chunks: 0, next: n, chunk: Vec::new(), delivered, failed, failing };
        assert(router@.delivered =~= initial_view(n as nat).delivered);
        assert(router@.failed =~= initial_view(n as nat).failed);
        assert(router@.failing =~= initial_view(n as nat).failing);
        assert(router@.chunk =~= initial_view(n as nat).chunk);
        Some(router)
    }

    /// Whether the router runs.
    pub fn is_running(&self) -> (r: bool)
        ensures
            r == (self@.stop is None),
    {
        self.stop.is_none()
    }

    /// Why the router stopped, or `None` while it runs.
    pub fn stop_reason(&self) -> (r: &Option<StopReason>)
        ensures
            *r == self@.stop,
    {
        &self.stop
    }

    /// The number of outputs.
    pub fn outputs(&self) -> (r: usize)
        requires
            self.wf(),
        ensures
            r == outputs(self@),
    {
        self.delivered.len()
    }

    /// The number of chunks taken from the input.
    pub fn chunks(&self) -> (r: u64)
        ensures
            r == self@.chunks,
    {
        self.chunks
    }

    /// The output that the current chunk goes to next, if any.
    pub fn next_output(&self) -> (r: Option<usize>)
        requires
            self.wf(),
        ensures
            r matches Some(i) ==> i == self@.next && self@.stop is None,
            r is None <==> self@.stop is Some || self@.next == outputs(self@),
    {
        if self.stop.is_none() && self.next < self.delivered.len() {
            Some(self.next)
        } else {
            None
        }
    }

    /// The chunk being handed out.
    pub fn chunk(&self) -> (r: &[u8])
        ensures
            r@ == self@.chunk,
    {
        self.chunk.as_slice()
    }

    /// The number of chunks sent to output `i`.
    pub fn delivered(&self, i: usize) -> (r: u64)
        requires
            self.wf(),
            i < outputs(self@),
        ensures
            r == self@.delivered[i as int],
    {
        self.delivered[i]
    }

    /// The number of failed sends to output `i`.
    pub fn failed(&self, i: usize) -> (r: u64)
        requires
            self.wf(),
            i < outputs(self@),
        ensures
            r == self@.failed[i as int],
    {
        self.failed[i]
    }

    /// Whether the last send to output `i` failed.
    pub fn is_failing(&self, i: usize) -> (r: bool)
        requires
            self.wf(),
            i < outputs(self@),
        ensures
            r == self@.failing[i as int],
    {
        self.failing[i]
    }

    /// Takes the report of one read of the input. `data` holds the bytes
    /// read, and nothing else.
    pub fn on_read(&mut self, result: StreamReadResult, data: &[u8])
        requires
            old(self).wf(),
            awaiting_read(old(self)@),
            old(self)@.chunks < u64::MAX,
            result matches StreamReadResult::BytesRead(n) ==> n == data@.len(),
        ensures
            final(self).wf(),
            final(self)@ == read_step(old(self)@, result, data@),
    {
        let ghost v = self@;
        match result {
            StreamReadResult::BytesRead(n) => {
                if n != 0 {
                    self.chunks = self.chunks + 1;
                    self.next = 0;
                    self.chunk = slice_to_vec(data);
                    assert(self@.delivered == v.delivered);
                    assert(self@.failed == v.failed);
                    assert(self@ == read_step(v, StreamReadResult::BytesRead(n), data@));
                    assert forall|i: int| 0 <= i < outputs(self@) implies #[trigger] attempts(self@, i)
                        == if i < self@.next { self@.chunks } else { (self@.chunks - 1) as nat } by {
                        assert(attempts(self@, i) == attempts(v, i));
                    }
                }
            },
            StreamReadResult::Finished => {
                self.stop = Some(StopReason::EndOfData);
                assert(self@.delivered == v.delivered);
                assert(self@.failed == v.failed);
                assert forall|i: int| 0 <= i < outputs(self@) implies #[trigger] attempts(self@, i)
                    == attempts(v, i) by {}
            },
            StreamReadResult::Error(e) => {
                self.stop = Some(StopReason::ReadError(e));
                assert(self@.delivered == v.delivered);
                assert(self@.failed == v.failed);
                assert forall|i: int| 0 <= i < outputs(self@) implies #[trigger] attempts(self@, i)
                    == attempts(v, i) by {}
            },
        }
    }

    /// Takes the outcome of sending the current chunk to output
    /// `next_output()`.
    pub fn on_send(&mut self, outcome: &Result<usize, String>)
        requires
            old(self).wf(),
            old(self)@.stop is None,
            old(self)@.next < outputs(old(self)@),
        ensures
            final(self).wf(),
            final(self)@ == send_step(old(self)@, outcome is Ok),
    {
        let ghost v = self@;
        let i = self.next;
        let n = self.delivered.len();
        assert(i < n);
        assert(attempts(v, i as int) == v.chunks - 1);
        let ok = outcome.is_ok();
        if ok {
            let d = self.delivered[i] + 1;
            self.delivered.set(i, d);
        } else {
            let f = self.failed[i] + 1;
            self.failed.set(i, f);
        }
        self.failing.set(i, !ok);
        self.next = i + 1;
        let ghost w = send_step(v, ok);
        assert(self@.delivered =~= w.delivered);
        assert(self@.failed =~= w.failed);
        assert(self@.failing =~= w.failing);
        assert forall|j: int| 0 <= j < outputs(self@) implies #[trigger] attempts(self@, j)
            == if j < self@.next { self@.chunks } else { (self@.chunks - 1) as nat } by {
            if j != i {
                assert(attempts(self@, j) == attempts(v, j));
            }
        }
    }
}

} // verus!
