//! Envelope codec: the frame layouts that clients, the broker and workers
//! exchange, and the functions that take them apart and put them together.
use std::collections::VecDeque;
use vstd::prelude::*;

verus! {

/// One frame of a message: an opaque byte string, compared byte for byte.
pub type Frame = Vec<u8>;

/// A message as an ordered sequence of frames.
pub type Multipart = VecDeque<Frame>;

/// Ways in which an inbound message can fail to have the expected layout.
#[derive(Clone, Copy, Debug, PartialEq, Eq, Structural)]
pub enum EnvelopeError {
    /// The message ends before a frame the layout requires.
    NotEnoughMessages,
    /// The message holds frames after the last one the layout allows.
    TooManyMessages,
    /// The frame in the delimiter position is not empty.
    MsgNotEmpty,
}

/// The frames of a message, each as its bytes.
pub open spec fn frames_view(m: Seq<Frame>) -> Seq<Seq<u8>> {
    m.map_values(|f: Frame| f@)
}

/// The body a worker sends to announce that it is ready for work: `READY`.
pub open spec fn ready_sentinel() -> Seq<u8> {
    seq![82u8, 69u8, 65u8, 68u8, 89u8]
}

/// A client request taken apart: who sent it and what it asks.
#[derive(Debug)]
pub struct ClientRequest {
    pub client_id: Frame,
    pub body: Frame,
}

/// A worker message taken apart.
#[derive(Debug)]
pub enum WorkerMessage {
    /// The worker announces that it can take a job.
    Ready { worker_id: Frame },
    /// The worker returns the result of a job for a client.
    Reply { worker_id: Frame, client_id: Frame, result: Frame },
}

/// What a worker message means, as byte strings.
pub enum WorkerEvent {
    Ready(Seq<u8>),
    Reply(Seq<u8>, Seq<u8>, Seq<u8>),
}

impl WorkerEvent {
    /// The worker that sent the message.
    pub open spec fn worker(self) -> Seq<u8> {
        match self {
            WorkerEvent::Ready(w) => w,
            WorkerEvent::Reply(w, _, _) => w,
        }
    }
}

impl View for WorkerMessage {
    type V = WorkerEvent;

    open spec fn view(&self) -> WorkerEvent {
        match self {
            WorkerMessage::Ready { worker_id } => WorkerEvent::Ready(worker_id@),
            WorkerMessage::Reply { worker_id, client_id, result } => WorkerEvent::Reply(
                worker_id@,
                client_id@,
                result@,
            ),
        }
    }
}

/// The meaning of a client message `[ClientID, empty, body]`: the client and
/// the body, or the first layout error found.
pub open spec fn client_request_of(m: Seq<Seq<u8>>) -> Result<(Seq<u8>, Seq<u8>), EnvelopeError> {
    if m.len() < 3 {
        Err(EnvelopeError::NotEnoughMessages)
    } else if m.len() > 3 {
        Err(EnvelopeError::TooManyMessages)
    } else if m[1].len() != 0 {
        Err(EnvelopeError::MsgNotEmpty)
    } else {
        Ok((m[0], m[2]))
    }
}

/// The meaning of a worker message, read front to back: the worker, an empty
/// delimiter, then either the ready sentinel (nothing after it is read) or a
/// client followed by exactly one result frame.
pub open spec fn worker_event_of(m: Seq<Seq<u8>>) -> Result<WorkerEvent, EnvelopeError> {
    if m.len() < 2 {
        Err(EnvelopeError::NotEnoughMessages)
    } else if m[1].len() != 0 {
        Err(EnvelopeError::MsgNotEmpty)
    } else if m.len() < 3 {
        Err(EnvelopeError::NotEnoughMessages)
    } else if m[2] == ready_sentinel() {
        Ok(WorkerEvent::Ready(m[0]))
    } else if m.len() < 4 {
        Err(EnvelopeError::NotEnoughMessages)
    } else if m.len() > 4 {
        Err(EnvelopeError::TooManyMessages)
    } else {
        Ok(WorkerEvent::Reply(m[0], m[2], m[3]))
    }
}

/// The layout the broker sends to a worker: `[WorkerID, empty, ClientID, body]`.
pub open spec fn dispatch_frames(w: Seq<u8>, c: Seq<u8>, body: Seq<u8>) -> Seq<Seq<u8>> {
    seq![w, Seq::empty(), c, body]
}

/// The layout the broker sends to a client: `[ClientID, empty, result]`.
pub open spec fn reply_frames(c: Seq<u8>, result: Seq<u8>) -> Seq<Seq<u8>> {
    seq![c, Seq::empty(), result]
}

/// The layout of a worker's announcement: `[WorkerID, empty, READY]`.
pub open spec fn ready_frames(w: Seq<u8>) -> Seq<Seq<u8>> {
    seq![w, Seq::empty(), ready_sentinel()]
}

/// Whether a frame is the ready sentinel.
pub fn is_ready_sentinel(f: &Frame) -> (r: bool)
    ensures
        r == (f@ == ready_sentinel()),
{
    if f.len() == 5 && f[0] == 82u8 && f[1] == 69u8 && f[2] == 65u8 && f[3] == 68u8 && f[4]
        == 89u8 {
        assert(f@ =~= ready_sentinel());
        true
    } else {
        false
    }
}

/// Takes apart a client message `[ClientID, empty, body]`.
pub fn decode_client_request(m: Multipart) -> (r: Result<ClientRequest, EnvelopeError>)
    ensures
        match r {
            Ok(req) => client_request_of(frames_view(m@)) == Ok::<(Seq<u8>, Seq<u8>), EnvelopeError>((req.client_id@, req.body@)),
            Err(e) => client_request_of(frames_view(m@)) == Err::<(Seq<u8>, Seq<u8>), EnvelopeError>(e),
        },
{
    let mut m = m;
    if m.len() < 3 {
        return Err(EnvelopeError::NotEnoughMessages);
    }
    if m.len() > 3 {
        return Err(EnvelopeError::TooManyMessages);
    }
    let client_id = m.pop_front().unwrap();
    let empty = m.pop_front().unwrap();
    let body = m.pop_front().unwrap();
    if empty.len() != 0 {
        return Err(EnvelopeError::MsgNotEmpty);
    }
    Ok(ClientRequest { client_id, body })
}

/// Takes apart a worker message: `[WorkerID, empty, READY, ...]` or
/// `[WorkerID, empty, ClientID, result]`.
pub fn decode_worker_message(m: Multipart) -> (r: Result<WorkerMessage, EnvelopeError>)
    ensures
        match r {
            Ok(msg) => worker_event_of(frames_view(m@)) == Ok::<WorkerEvent, EnvelopeError>(msg@),
            Err(e) => worker_event_of(frames_view(m@)) == Err::<WorkerEvent, EnvelopeError>(e),
        },
{
    let mut m = m;
    let worker_id = match m.pop_front() {
        Some(f) => f,
        None => return Err(EnvelopeError::NotEnoughMessages),
    };
    let empty = match m.pop_front() {
        Some(f) => f,
        None => return Err(EnvelopeError::NotEnoughMessages),
    };
    if empty.len() != 0 {
        return Err(EnvelopeError::MsgNotEmpty);
    }
    let body = match m.pop_front() {
        Some(f) => f,
        None => return Err(EnvelopeError::NotEnoughMessages),
    };
    if is_ready_sentinel(&body) {
        return Ok(WorkerMessage::Ready { worker_id });
    }
    let result = match m.pop_front() {
        Some(f) => f,
        None => return Err(EnvelopeError::NotEnoughMessages),
    };
    if m.len() != 0 {
        return Err(EnvelopeError::TooManyMessages);
    }
    Ok(WorkerMessage::Reply { worker_id, client_id: body, result })
}

/// Builds the message that hands a client's request to a worker:
/// `[WorkerID, empty, ClientID, body]`.
pub fn encode_backend_dispatch(worker_id: Frame, client_id: Frame, body: Frame) -> (r: Multipart)
    ensures
        frames_view(r@) == dispatch_frames(worker_id@, client_id@, body@),
{
    let mut r: Multipart = VecDeque::new();
    r.push_back(worker_id);
    r.push_back(Vec::new());
    r.push_back(client_id);
    r.push_back(body);
    assert(frames_view(r@) =~= dispatch_frames(worker_id@, client_id@, body@));
    r
}

/// Builds the message that returns a result to a client: `[ClientID, empty, result]`.
pub fn encode_frontend_reply(client_id: Frame, result: Frame) -> (r: Multipart)
    ensures
        frames_view(r@) == reply_frames(client_id@, result@),
{
    Envelope { addr: client_id, empty: Vec::new(), request: result }.into_multipart()
}

/// A three-frame envelope: an address, an empty delimiter and a payload.
pub struct Envelope {
    pub addr: Frame,
    pub empty: Frame,
    pub request: Frame,
}

impl Envelope {
    /// The envelope's frames in order: `[addr, empty, request]`.
    pub fn into_multipart(self) -> (r: Multipart)
        ensures
            frames_view(r@) == seq![self.addr@, self.empty@, self.request@],
    {
        let mut multipart: Multipart = VecDeque::new();
        multipart.push_back(self.addr);
        multipart.push_back(self.empty);
        multipart.push_back(self.request);
        assert(frames_view(multipart@) =~= seq![self.addr@, self.empty@, self.request@]);
        multipart
    }
}

/// A well-formed client message `[ClientID, empty, body]` decodes to its
/// client and body, and the reply layout built from them gives the same frames
/// back; and any reply layout decodes to what it was built from.
pub proof fn lemma_client_round_trip(m: Seq<Seq<u8>>, c: Seq<u8>, result: Seq<u8>)
    requires
        m.len() == 3,
        m[1].len() == 0,
    ensures
        client_request_of(m) == Ok::<(Seq<u8>, Seq<u8>), EnvelopeError>((m[0], m[2])),
        reply_frames(m[0], m[2]) == m,
        client_request_of(reply_frames(c, result)) == Ok::<(Seq<u8>, Seq<u8>), EnvelopeError>(
            (c, result),
        ),
{
    assert(m[1] =~= Seq::<u8>::empty());
    assert(reply_frames(m[0], m[2]) =~= m);
}

/// A well-formed worker result `[WorkerID, empty, ClientID, result]` decodes
/// to its three parts, and the dispatch layout built from them gives the same
/// frames back; and any dispatch layout whose client frame is not the ready
/// sentinel decodes to what it was built from.
pub proof fn lemma_worker_round_trip(m: Seq<Seq<u8>>, w: Seq<u8>, c: Seq<u8>, body: Seq<u8>)
    requires
        m.len() == 4,
        m[1].len() == 0,
        m[2] != ready_sentinel(),
        c != ready_sentinel(),
    ensures
        worker_event_of(m) == Ok::<WorkerEvent, EnvelopeError>(
            WorkerEvent::Reply(m[0], m[2], m[3]),
        ),
        dispatch_frames(m[0], m[2], m[3]) == m,
        worker_event_of(dispatch_frames(w, c, body)) == Ok::<WorkerEvent, EnvelopeError>(
            WorkerEvent::Reply(w, c, body),
        ),
{
    assert(m[1] =~= Seq::<u8>::empty());
    assert(dispatch_frames(m[0], m[2], m[3]) =~= m);
}

/// An announcement `[WorkerID, empty, READY]` decodes as readiness of that
/// worker.
pub proof fn lemma_ready_decodes(w: Seq<u8>)
    ensures
        worker_event_of(ready_frames(w)) == Ok::<WorkerEvent, EnvelopeError>(
            WorkerEvent::Ready(w),
        ),
{
}

} // verus!
