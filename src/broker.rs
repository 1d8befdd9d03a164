//! The broker's routing decisions: what each inbound message does to the
//! worker availability queue, and what is sent on as a result.
use crate::codec::{
    decode_worker_message, dispatch_frames, encode_backend_dispatch, encode_frontend_reply,
    frames_view, ready_frames, Frame, reply_frames, worker_event_of, ClientRequest, EnvelopeError,
    Multipart, WorkerEvent, WorkerMessage, lemma_ready_decodes, ready_sentinel,
};
use crate::queue::WorkerQueue;
use vstd::prelude::*;

verus! {

/// The queue after a worker message: a well-formed message puts its worker at
/// the back, whether it announces readiness or returns a result.
pub open spec fn queue_after_worker_message(q: Seq<Seq<u8>>, m: Seq<Seq<u8>>) -> Seq<Seq<u8>> {
    match worker_event_of(m) {
        Ok(ev) => q.push(ev.worker()),
        Err(_) => q,
    }
}

/// What a worker message sends on to the client side: nothing for an
/// announcement, `[ClientID, empty, result]` for a result.
pub open spec fn output_of_worker_message(m: Seq<Seq<u8>>) -> Result<
    Option<Seq<Seq<u8>>>,
    EnvelopeError,
> {
    match worker_event_of(m) {
        Ok(WorkerEvent::Ready(_)) => Ok(None),
        Ok(WorkerEvent::Reply(_, c, result)) => Ok(Some(reply_frames(c, result))),
        Err(e) => Err(e),
    }
}

/// The queue after a client request is handed to a worker: the front worker
/// leaves it. With no worker waiting nothing is handed out.
pub open spec fn queue_after_dispatch(q: Seq<Seq<u8>>) -> Seq<Seq<u8>> {
    if q.len() == 0 {
        q
    } else {
        q.drop_first()
    }
}

/// The queue after `k` dispatches in a row.
pub open spec fn queue_after_dispatches(q: Seq<Seq<u8>>, k: nat) -> Seq<Seq<u8>>
    decreases k,
{
    if k == 0 {
        q
    } else {
        queue_after_dispatch(queue_after_dispatches(q, (k - 1) as nat))
    }
}

/// The queue after the workers `ws` announce readiness, in that order.
pub open spec fn queue_after_announcements(q: Seq<Seq<u8>>, ws: Seq<Seq<u8>>) -> Seq<Seq<u8>>
    decreases ws.len(),
{
    if ws.len() == 0 {
        q
    } else {
        queue_after_worker_message(
            queue_after_announcements(q, ws.drop_last()),
            ready_frames(ws.last()),
        )
    }
}

/// The routing state shared by the client side and the worker side.
pub struct Broker {
    queue: WorkerQueue,
}

impl View for Broker {
    type V = Seq<Seq<u8>>;

    /// The workers waiting for a job, the longest waiting first.
    closed spec fn view(&self) -> Seq<Seq<u8>> {
        self.queue@
    }
}

impl Broker {
    /// A broker with no worker waiting.
    pub fn new() -> (r: Broker)
        ensures
            r@ == Seq::<Seq<u8>>::empty(),
    {
        Broker { queue: WorkerQueue::new() }
    }

    /// The number of workers waiting for a job.
    pub fn available_workers(&self) -> (r: usize)
        ensures
            r == self@.len(),
    {
        self.queue.len()
    }

    /// The worker that the next request will go to, if any is waiting.
    pub fn next_worker(&self) -> (r: Option<&Frame>)
        ensures
            self@.len() == 0 ==> r is None,
            self@.len() > 0 ==> r is Some && r->0@ == self@[0],
    {
        self.queue.front()
    }

    /// Handles a message from a worker. A well-formed one puts the worker at
    /// the back of the queue; a result also yields the message to send to the
    /// client named in it. A malformed one changes nothing.
    pub fn handle_worker_message(&mut self, m: Multipart) -> (r: Result<
        Option<Multipart>,
        EnvelopeError,
    >)
        ensures
            final(self)@ == queue_after_worker_message(old(self)@, frames_view(m@)),
            match r {
                Ok(Some(out)) => output_of_worker_message(frames_view(m@)) == Ok::<
                    Option<Seq<Seq<u8>>>,
                    EnvelopeError,
                >(Some(frames_view(out@))),
                Ok(None) => output_of_worker_message(frames_view(m@)) == Ok::<
                    Option<Seq<Seq<u8>>>,
                    EnvelopeError,
                >(None),
                Err(e) => output_of_worker_message(frames_view(m@)) == Err::<
                    Option<Seq<Seq<u8>>>,
                    EnvelopeError,
                >(e),
            },
    {
        match decode_worker_message(m) {
            Err(e) => Err(e),
            Ok(WorkerMessage::Ready { worker_id }) => {
                self.queue.push(worker_id);
                Ok(None)
            },
            Ok(WorkerMessage::Reply { worker_id, client_id, result }) => {
                self.queue.push(worker_id);
                Ok(Some(encode_frontend_reply(client_id, result)))
            },
        }
    }

    /// Hands a decoded client request to the worker that has waited longest,
    /// and yields the message to send to it. With no worker waiting the
    /// request comes back untouched, to be offered again later.
    pub fn try_dispatch(&mut self, req: ClientRequest) -> (r: Result<Multipart, ClientRequest>)
        ensures
            final(self)@ == queue_after_dispatch(old(self)@),
            old(self)@.len() == 0 ==> r is Err && r->Err_0.client_id@ == req.client_id@
                && r->Err_0.body@ == req.body@,
            old(self)@.len() > 0 ==> r is Ok && frames_view(r->Ok_0@) == dispatch_frames(
                old(self)@[0],
                req.client_id@,
                req.body@,
            ),
    {
        match self.queue.pop() {
            None => Err(req),
            Some(worker_id) => Ok(encode_backend_dispatch(worker_id, req.client_id, req.body)),
        }
    }
}

/// A worker is never queued twice while it behaves as the protocol asks, that
/// is, speaks only when it is not already waiting: from a queue without
/// repeats, handling such a worker's message, or a dispatch, leaves a queue
/// without repeats.
pub proof fn lemma_queue_no_repeats(q: Seq<Seq<u8>>, m: Seq<Seq<u8>>)
    requires
        q.no_duplicates(),
        worker_event_of(m) is Ok ==> !q.contains(worker_event_of(m)->Ok_0.worker()),
    ensures
        queue_after_worker_message(q, m).no_duplicates(),
        queue_after_dispatch(q).no_duplicates(),
{
    if worker_event_of(m) is Ok {
        let w = worker_event_of(m)->Ok_0.worker();
        let p = q.push(w);
        assert forall|i: int, j: int| 0 <= i < j < p.len() implies p[i] != p[j] by {
            if j == q.len() {
                assert(q.contains(q[i]));
            }
        }
    }
    if q.len() > 0 {
        let d = q.drop_first();
        assert forall|i: int, j: int| 0 <= i < j < d.len() implies d[i] != d[j] by {
            assert(d[i] == q[i + 1] && d[j] == q[j + 1]);
        }
    }
}

/// A result that a worker returns for a dispatched request, echoing the
/// frames it was sent, goes back to exactly the client of that request, and
/// puts the worker back in the queue. What is sent depends on that message
/// alone, not on the queue or on other traffic.
pub proof fn lemma_reply_reaches_client(
    q: Seq<Seq<u8>>,
    w: Seq<u8>,
    c: Seq<u8>,
    body: Seq<u8>,
    result: Seq<u8>,
)
    requires
        c != ready_sentinel(),
    ensures
        ({
            let d = dispatch_frames(w, c, body);
            let answer = seq![d[0], d[1], d[2], result];
            &&& output_of_worker_message(answer) == Ok::<Option<Seq<Seq<u8>>>, EnvelopeError>(
                Some(reply_frames(c, result)),
            )
            &&& reply_frames(c, result)[0] == c
            &&& queue_after_worker_message(q, answer) == q.push(w)
        }),
{
    let d = dispatch_frames(w, c, body);
    let answer = seq![d[0], d[1], d[2], result];
    assert(answer[2] == c);
}

/// Dispatches serve the queue in order: after `k` of them, the next one goes
/// to the worker that was `k`-th in the queue.
pub proof fn lemma_dispatch_order(q: Seq<Seq<u8>>, k: nat)
    requires
        k < q.len(),
    ensures
        queue_after_dispatches(q, k) == q.subrange(k as int, q.len() as int),
        queue_after_dispatches(q, k)[0] == q[k as int],
    decreases k,
{
    if k > 0 {
        lemma_dispatch_order(q, (k - 1) as nat);
        assert(queue_after_dispatches(q, k) =~= q.subrange(k as int, q.len() as int));
    } else {
        assert(q.subrange(0, q.len() as int) =~= q);
    }
}

/// Workers that announce readiness one after another, starting from an empty
/// queue, are queued in that order.
pub proof fn lemma_announcements_queue_in_order(ws: Seq<Seq<u8>>)
    ensures
        queue_after_announcements(Seq::empty(), ws) == ws,
    decreases ws.len(),
{
    if ws.len() > 0 {
        lemma_announcements_queue_in_order(ws.drop_last());
        lemma_ready_decodes(ws.last());
        assert(ws.drop_last().push(ws.last()) =~= ws);
    }
}

/// Workers that announce readiness in a given order, with no job in flight,
/// take the requests that follow in that same order: the `k`-th request goes
/// to the `k`-th worker.
pub proof fn lemma_first_come_first_served(ws: Seq<Seq<u8>>, k: nat)
    requires
        k < ws.len(),
    ensures
        queue_after_dispatches(queue_after_announcements(Seq::empty(), ws), k)[0] == ws[k as int],
{
    lemma_announcements_queue_in_order(ws);
    lemma_dispatch_order(ws, k);
}

/// Readiness is not deduplicated: a worker that announces itself twice with
/// no dispatch between is queued twice, and nothing is sent either time.
pub proof fn lemma_repeated_announcement(q: Seq<Seq<u8>>, w: Seq<u8>)
    ensures
        queue_after_worker_message(queue_after_worker_message(q, ready_frames(w)), ready_frames(w))
            == q.push(w).push(w),
        output_of_worker_message(ready_frames(w)) == Ok::<Option<Seq<Seq<u8>>>, EnvelopeError>(
            None,
        ),
{
    lemma_ready_decodes(w);
}

} // verus!
