//! The streaming body adapter: a frame source presented as a
//! transport-facing body with three query surfaces — pull data, check the
//! end-of-stream flag, and pull the one-shot status trailer.
//!
//! A failure pulled from the frame source is not surfaced as data: it is
//! stored, data production reports a normal end, and the stored status is
//! consumed by the first trailer pull, which also flips the end-of-stream
//! flag.  A clean exhaustion yields a successful status instead.

use vstd::prelude::*;

use crate::encode::{all_ok, encode, frames_of, FrameSource, FrameStream, OutcomeQueue};
use crate::frame::{CompressionEncoding, FrameCompressor, MessageEncoder};
use crate::status::{code_num, ok_status_view, Status, StatusView};

verus! {

/// Which side of the exchange produces this body.  Both roles follow the
/// same state machine; downstream transport layers key off the tag to
/// decide how the trailer is forwarded.
#[derive(Clone, Copy, PartialEq, Eq, Structural, Debug)]
pub enum Role {
    Server,
    Client,
}

/// Mathematical model of a trailer record.
pub ghost struct TrailersView {
    pub status_code: u32,
    pub message: Seq<char>,
}

/// The trailer record emitted once per exchange: the exchange's final
/// status code and its diagnostic message, ready for the transport's
/// trailer representation.
#[derive(Debug)]
pub struct Trailers {
    status_code: u32,
    message: String,
}

impl View for Trailers {
    type V = TrailersView;

    closed spec fn view(&self) -> TrailersView {
        TrailersView { status_code: self.status_code, message: self.message@ }
    }
}

/// The trailer record that reports a given status.
pub open spec fn trailer_of(st: StatusView) -> TrailersView {
    TrailersView { status_code: code_num(st.code), message: st.message }
}

impl Trailers {
    /// Build the trailer record for `status`.
    pub fn of_status(status: &Status) -> (t: Trailers)
        ensures
            t@ == trailer_of(status@),
    {
        Trailers { status_code: status.code().number(), message: status.message().clone() }
    }

    /// The numeric status code carried by this trailer.
    pub fn status_code(&self) -> (c: u32)
        ensures
            c == self@.status_code,
    {
        self.status_code
    }

    /// The status message carried by this trailer.
    pub fn message(&self) -> (m: &String)
        ensures
            m@ == self@.message,
    {
        &self.message
    }
}

/// Mathematical model of a streaming body: the frames still to be pulled,
/// the role, the end-of-stream flag and the pending terminal status.
pub ghost struct BodyView {
    pub frames: Seq<Result<Seq<u8>, StatusView>>,
    pub role: Role,
    pub ended: bool,
    pub error: Option<StatusView>,
}

/// One data pull: the head frame is handed out; a failure at the head is
/// stored as the pending status and reported as a normal end of data; an
/// exhausted source reports the end of data with nothing stored.
pub open spec fn data_step(v: BodyView) -> (BodyView, Option<Seq<u8>>) {
    if v.frames.len() == 0 {
        (v, Option::None)
    } else {
        match v.frames[0] {
            Result::Ok(f) => ((BodyView { frames: v.frames.drop_first(), ..v }), Option::Some(f)),
            Result::Err(st) => (
                (BodyView { frames: Seq::empty(), error: Option::Some(st), ..v }),
                Option::None,
            ),
        }
    }
}

/// One trailer pull: after the flag is set nothing more is produced;
/// otherwise the pending status — or a successful one when none is pending
/// — is consumed, the flag is set, and its trailer record is produced.
pub open spec fn trailers_step(v: BodyView) -> (BodyView, Option<TrailersView>) {
    if v.ended {
        (v, Option::None)
    } else {
        let st = match v.error {
            Option::Some(s) => s,
            Option::None => ok_status_view(),
        };
        ((BodyView { ended: true, error: Option::None, ..v }), Option::Some(trailer_of(st)))
    }
}

/// A frame source wrapped as a transport-facing body for one exchange.
pub struct EncodeBody<S> {
    inner: S,
    role: Role,
    is_end_stream: bool,
    error: Option<Status>,
}

impl<S: FrameSource> View for EncodeBody<S> {
    type V = BodyView;

    closed spec fn view(&self) -> BodyView {
        BodyView {
            frames: self.inner.results(),
            role: self.role,
            ended: self.is_end_stream,
            error: match self.error {
                Option::Some(st) => Option::Some(st@),
                Option::None => Option::None,
            },
        }
    }
}

impl<S: FrameSource> EncodeBody<S> {
    /// Wrap a frame source as the body of a server-produced response.
    pub fn new_server(inner: S) -> (b: Self)
        ensures
            b@ == (BodyView {
                frames: inner.results(),
                role: Role::Server,
                ended: false,
                error: Option::None,
            }),
    {
        EncodeBody { inner, role: Role::Server, is_end_stream: false, error: None }
    }

    /// Wrap a frame source as the body of a client-produced request.
    pub fn new_client(inner: S) -> (b: Self)
        ensures
            b@ == (BodyView {
                frames: inner.results(),
                role: Role::Client,
                ended: false,
                error: Option::None,
            }),
    {
        EncodeBody { inner, role: Role::Client, is_end_stream: false, error: None }
    }

    /// Which side of the exchange produces this body.
    pub fn role(&self) -> (r: Role)
        ensures
            r == self@.role,
    {
        self.role
    }

    /// The end-of-stream flag.  It is flipped only by trailer production,
    /// never by a data pull reporting that no data is left.
    pub fn is_end_stream(&self) -> (r: bool)
        ensures
            r == self@.ended,
    {
        self.is_end_stream
    }

    /// Pull the next data chunk.  An error is never handed out here: a
    /// failure is stored for the trailer and `None` is returned.
    pub fn poll_data(&mut self) -> (r: Option<Result<Vec<u8>, Status>>)
        ensures
            ({
                let (v2, d) = data_step(old(self)@);
                &&& final(self)@ == v2
                &&& match r {
                    Option::None => d is None,
                    Option::Some(Result::Ok(f)) => d == Option::Some(f@),
                    Option::Some(Result::Err(_)) => false,
                }
            }),
    {
        match self.inner.pull_next() {
            Some(Result::Ok(d)) => Some(Result::Ok(d)),
            Some(Result::Err(status)) => {
                self.error = Some(status);
                proof {
                    assert(self.inner.results() =~= Seq::<Result<Seq<u8>, StatusView>>::empty());
                }
                None
            },
            None => {
                proof {
                    assert(self.inner.results() =~= old(self).inner.results());
                }
                None
            },
        }
    }

    /// Pull the trailer record.  The first pull after the exchange's data
    /// has ended consumes the pending status — or synthesizes a successful
    /// one — sets the end-of-stream flag, and returns the trailer; every
    /// later pull returns no trailer.
    pub fn poll_trailers(&mut self) -> (r: Result<Option<Trailers>, Status>)
        ensures
            ({
                let (v2, t) = trailers_step(old(self)@);
                &&& final(self)@ == v2
                &&& match r {
                    Result::Ok(Option::None) => t is None,
                    Result::Ok(Option::Some(tr)) => t == Option::Some(tr@),
                    Result::Err(_) => false,
                }
            }),
    {
        if self.is_end_stream {
            return Ok(None);
        }
        let status = match self.error.take() {
            Some(status) => status,
            None => Status::ok(""),
        };
        self.is_end_stream = true;
        proof {
            reveal_strlit("");
            assert(""@ =~= Seq::<char>::empty());
        }
        Ok(Some(Trailers::of_status(&status)))
    }
}

/// Build the complete outbound pipeline of a server response: frames from
/// `encoder` (and `compressor`, when an encoding is selected) wrapped as a
/// server-role body.
pub fn encode_server<E: MessageEncoder, C: FrameCompressor>(
    encoder: E,
    body: OutcomeQueue<E::Item>,
    compression_encoding: Option<CompressionEncoding>,
    compressor: C,
) -> (b: EncodeBody<FrameStream<E, C>>)
    ensures
        b@ == (BodyView {
            frames: frames_of(encoder, compressor, compression_encoding, body.pending()),
            role: Role::Server,
            ended: false,
            error: Option::None,
        }),
{
    let s = encode(encoder, body, compression_encoding, compressor);
    EncodeBody::new_server(s)
}

/// Build the complete outbound pipeline of a client request.  A client's
/// input sequence carries plain messages, never upstream failures.
pub fn encode_client<E: MessageEncoder, C: FrameCompressor>(
    encoder: E,
    body: Vec<E::Item>,
    compression_encoding: Option<CompressionEncoding>,
    compressor: C,
) -> (b: EncodeBody<FrameStream<E, C>>)
    ensures
        b@ == (BodyView {
            frames: frames_of(encoder, compressor, compression_encoding, all_ok(body@)),
            role: Role::Client,
            ended: false,
            error: Option::None,
        }),
{
    let ghost orig = body@;
    let mut items = body;
    let mut q: OutcomeQueue<E::Item> = OutcomeQueue::new();
    while items.len() > 0
        invariant
            items@.len() <= orig.len(),
            items@ == orig.subrange(orig.len() - items@.len(), orig.len() as int),
            q.pending() == all_ok(orig.subrange(0, orig.len() - items@.len())),
        decreases items@.len(),
    {
        let it = items.remove(0);
        q.push_ok(it);
        proof {
            assert(items@ =~= orig.subrange(orig.len() - items@.len(), orig.len() as int));
            assert(q.pending() =~= all_ok(orig.subrange(0, orig.len() - items@.len())));
        }
    }
    proof {
        assert(orig.subrange(0, orig.len() as int) =~= orig);
    }
    let s = encode(encoder, q, compression_encoding, compressor);
    EncodeBody::new_client(s)
}

/// Trailer idempotence: one trailer pull on a body whose flag is not yet
/// set produces the trailer of the pending status — the successful status
/// when none is pending — and sets the flag; after that, any further
/// trailer pull produces nothing and changes nothing.
pub proof fn lemma_trailer_pulled_once(v: BodyView)
    requires
        !v.ended,
    ensures
        ({
            let (v1, t1) = trailers_step(v);
            &&& v1.ended
            &&& v1.error is None
            &&& t1 == Option::Some(
                trailer_of(
                    match v.error {
                        Option::Some(st) => st,
                        Option::None => ok_status_view(),
                    },
                ),
            )
            &&& trailers_step(v1).1 is None
            &&& trailers_step(v1).0 == v1
        }),
{
}

/// Trailer ordering after a failure: pulling data at a failure stores its
/// status without setting the end-of-stream flag, and the next trailer
/// pull returns exactly that status's trailer, sets the flag, and is the
/// only trailer ever produced.
pub proof fn lemma_trailer_after_failure(v: BodyView)
    requires
        !v.ended,
        v.error is None,
        v.frames.len() > 0,
        v.frames[0] is Err,
    ensures
        ({
            let (v1, d) = data_step(v);
            let (v2, t) = trailers_step(v1);
            &&& d is None
            &&& !v1.ended
            &&& t == Option::Some(trailer_of(v.frames[0]->Err_0))
            &&& v2.ended
            &&& trailers_step(v2).1 is None
        }),
{
}

/// Trailer ordering after clean exhaustion: pulling data on an exhausted
/// body reports the end of data, and the next trailer pull returns the
/// successful status's trailer, sets the flag, and is the only trailer
/// ever produced.
pub proof fn lemma_trailer_after_exhaustion(v: BodyView)
    requires
        !v.ended,
        v.error is None,
        v.frames.len() == 0,
    ensures
        ({
            let (v1, d) = data_step(v);
            let (v2, t) = trailers_step(v1);
            &&& d is None
            &&& !v1.ended
            &&& t == Option::Some(trailer_of(ok_status_view()))
            &&& v2.ended
            &&& trailers_step(v2).1 is None
        }),
{
}

} // verus!
