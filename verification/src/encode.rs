//! The lazy frame sequence: a pull-based source of encode outcomes is
//! adapted, one item per pull, into a pull-based sequence of wire frames.
//!
//! Production is strictly sequential and strictly pull-driven: no frame is
//! assembled until the consumer asks for it, and at most one message is in
//! flight at a time.  The sequence ends when the input is exhausted, or
//! permanently upon the first failure.

use vstd::prelude::*;

use crate::frame::{
    assemble_frame, frame_result, CompressionEncoding, FrameCompressor, MessageEncoder,
};
use crate::status::{Status, StatusView};

verus! {

/// A pull-based, exhaustible source of encode outcomes: each item is either
/// a message ready to be framed or a failure already produced upstream.
pub struct OutcomeQueue<T> {
    items: Vec<Result<T, Status>>,
}

impl<T> OutcomeQueue<T> {
    /// The outcomes still to be pulled, in order.
    pub closed spec fn pending(&self) -> Seq<Result<T, Status>> {
        self.items@
    }

    /// An empty source.
    pub fn new() -> (q: OutcomeQueue<T>)
        ensures
            q.pending() == Seq::<Result<T, Status>>::empty(),
    {
        OutcomeQueue { items: Vec::new() }
    }

    /// Append a message to the end of the source.
    pub fn push_ok(&mut self, item: T)
        ensures
            final(self).pending() == old(self).pending().push(Result::Ok(item)),
    {
        self.items.push(Result::Ok(item));
    }

    /// Append an upstream failure to the end of the source.
    pub fn push_err(&mut self, status: Status)
        ensures
            final(self).pending() == old(self).pending().push(Result::Err(status)),
    {
        self.items.push(Result::Err(status));
    }

    /// Pull the next outcome; `None` once the source is exhausted.
    pub fn pull(&mut self) -> (r: Option<Result<T, Status>>)
        ensures
            old(self).pending().len() == 0 ==> r is None && final(self).pending() == old(self).pending(),
            old(self).pending().len() > 0 ==> r == Some(old(self).pending()[0]) && final(self).pending() == old(self).pending().drop_first(),
    {
        if self.items.len() == 0 {
            None
        } else {
            let it = self.items.remove(0);
            assert(self.items@ =~= old(self).items@.drop_first());
            Some(it)
        }
    }
}

/// A sequence of plain messages read as an outcome sequence that carries
/// no upstream failures.
pub open spec fn all_ok<T>(items: Seq<T>) -> Seq<Result<T, Status>> {
    items.map_values(|item: T| Result::<T, Status>::Ok(item))
}

/// The whole output of the lazy frame sequence on a given input: one frame
/// per message up to (and excluding) the first failure, then that failure
/// alone, terminally; nothing but frames when no failure occurs.
pub open spec fn frames_of<E: MessageEncoder, C: FrameCompressor>(
    encoder: E,
    compressor: C,
    encoding: Option<CompressionEncoding>,
    outcomes: Seq<Result<E::Item, Status>>,
) -> Seq<Result<Seq<u8>, StatusView>>
    decreases outcomes.len(),
{
    if outcomes.len() == 0 {
        Seq::empty()
    } else {
        match outcomes[0] {
            Result::Err(st) => seq![Result::<Seq<u8>, StatusView>::Err(st@)],
            Result::Ok(item) => match frame_result(encoder, compressor, encoding, item) {
                Result::Ok(f) => seq![Result::<Seq<u8>, StatusView>::Ok(f)] + frames_of(
                    encoder,
                    compressor,
                    encoding,
                    outcomes.drop_first(),
                ),
                Result::Err(st) => seq![Result::<Seq<u8>, StatusView>::Err(st)],
            },
        }
    }
}

/// A pull-based producer of wire frames.  Each pull yields the next frame,
/// or the terminal failure after which nothing more is ever produced, or
/// `None` once the sequence has ended.
pub trait FrameSource: Sized {
    /// The frames and terminal failure still to be produced, in order.
    spec fn results(&self) -> Seq<Result<Seq<u8>, StatusView>>;

    /// Produce the next frame.  A failure is terminal: afterwards the
    /// source produces nothing, however often it is pulled again.
    fn pull_next(&mut self) -> (r: Option<Result<Vec<u8>, Status>>)
        ensures
            match r {
                Option::None => old(self).results().len() == 0 && final(self).results().len() == 0,
                Option::Some(out) => old(self).results().len() > 0 && (match out {
                    Result::Ok(f) => old(self).results()[0] == Result::<Seq<u8>, StatusView>::Ok(f@)
                        && final(self).results() == old(self).results().drop_first(),
                    Result::Err(st) => old(self).results()[0] == Result::<
                        Seq<u8>,
                        StatusView,
                    >::Err(st@) && final(self).results().len() == 0,
                }),
            },
    ;
}

/// The lazy frame sequence: consumes an outcome source and produces wire
/// frames through the frame assembler, one message per pull, reusing one
/// working buffer and one compression scratch buffer across pulls.
pub struct FrameStream<E: MessageEncoder, C: FrameCompressor> {
    source: OutcomeQueue<E::Item>,
    encoder: E,
    compressor: C,
    encoding: Option<CompressionEncoding>,
    buf: Vec<u8>,
    scratch: Vec<u8>,
    done: bool,
}

impl<E: MessageEncoder, C: FrameCompressor> FrameSource for FrameStream<E, C> {
    closed spec fn results(&self) -> Seq<Result<Seq<u8>, StatusView>> {
        if self.done {
            Seq::empty()
        } else {
            frames_of(self.encoder, self.compressor, self.encoding, self.source.pending())
        }
    }

    fn pull_next(&mut self) -> (r: Option<Result<Vec<u8>, Status>>) {
        if self.done {
            return None;
        }
        match self.source.pull() {
            None => None,
            Some(Result::Err(status)) => {
                self.done = true;
                Some(Result::Err(status))
            },
            Some(Result::Ok(item)) => {
                match assemble_frame(
                    &self.encoder,
                    &item,
                    &self.compressor,
                    self.encoding,
                    &mut self.buf,
                    &mut self.scratch,
                ) {
                    Result::Ok(frame) => {
                        proof {
                            assert(self.results() =~= old(self).results().drop_first());
                        }
                        Some(Result::Ok(frame))
                    },
                    Result::Err(status) => {
                        self.done = true;
                        Some(Result::Err(status))
                    },
                }
            },
        }
    }
}

/// Build the lazy frame sequence for one exchange: messages from
/// `resp_body` will be serialized by `encoder` and, when a compression
/// encoding is selected, compressed by `compressor`.
pub fn encode<E: MessageEncoder, C: FrameCompressor>(
    encoder: E,
    resp_body: OutcomeQueue<E::Item>,
    compression_encoding: Option<CompressionEncoding>,
    compressor: C,
) -> (s: FrameStream<E, C>)
    ensures
        s.results() == frames_of(encoder, compressor, compression_encoding, resp_body.pending()),
{
    FrameStream {
        source: resp_body,
        encoder,
        compressor,
        encoding: compression_encoding,
        buf: Vec::new(),
        scratch: Vec::new(),
        done: false,
    }
}

/// Order preservation: on an input with no failures anywhere, the sequence
/// yields exactly one successful frame per message, in input order.
pub proof fn lemma_order_preservation<E: MessageEncoder, C: FrameCompressor>(
    encoder: E,
    compressor: C,
    encoding: Option<CompressionEncoding>,
    outcomes: Seq<Result<E::Item, Status>>,
)
    requires
        forall|i: int|
            0 <= i < outcomes.len() ==> (#[trigger] outcomes[i]) is Ok && frame_result(
                encoder,
                compressor,
                encoding,
                outcomes[i]->Ok_0,
            ) is Ok,
    ensures
        frames_of(encoder, compressor, encoding, outcomes).len() == outcomes.len(),
        forall|i: int|
            0 <= i < outcomes.len() ==> (#[trigger] frames_of(
                encoder,
                compressor,
                encoding,
                outcomes,
            )[i]) == Result::<Seq<u8>, StatusView>::Ok(
                frame_result(encoder, compressor, encoding, outcomes[i]->Ok_0)->Ok_0,
            ),
    decreases outcomes.len(),
{
    if outcomes.len() > 0 {
        let rest = outcomes.drop_first();
        assert(forall|i: int| 0 <= i < rest.len() ==> (#[trigger] rest[i]) == outcomes[i + 1]);
        lemma_order_preservation(encoder, compressor, encoding, rest);
        let fs = frames_of(encoder, compressor, encoding, outcomes);
        let fs_rest = frames_of(encoder, compressor, encoding, rest);
        assert forall|i: int| 0 <= i < outcomes.len() implies (#[trigger] fs[i]) == Result::<
            Seq<u8>,
            StatusView,
        >::Ok(frame_result(encoder, compressor, encoding, outcomes[i]->Ok_0)->Ok_0) by {
            if i > 0 {
                assert(fs[i] == fs_rest[i - 1]);
                assert(rest[i - 1] == outcomes[i]);
            }
        }
    }
}

/// Single terminal failure: when the first failure sits at position `k` —
/// an upstream failure, or one induced by the serializer or the compressor
/// — the sequence yields exactly `k` successful frames in input order and
/// then that one failure.  By the frame-source contract nothing follows it,
/// however often the consumer pulls again.
pub proof fn lemma_single_terminal_failure<E: MessageEncoder, C: FrameCompressor>(
    encoder: E,
    compressor: C,
    encoding: Option<CompressionEncoding>,
    outcomes: Seq<Result<E::Item, Status>>,
    k: int,
)
    requires
        0 <= k < outcomes.len(),
        forall|i: int|
            0 <= i < k ==> (#[trigger] outcomes[i]) is Ok && frame_result(
                encoder,
                compressor,
                encoding,
                outcomes[i]->Ok_0,
            ) is Ok,
        outcomes[k] is Ok ==> frame_result(encoder, compressor, encoding, outcomes[k]->Ok_0) is Err,
    ensures
        ({
            let fs = frames_of(encoder, compressor, encoding, outcomes);
            &&& fs.len() == k + 1
            &&& forall|i: int|
                0 <= i < k ==> (#[trigger] fs[i]) == Result::<Seq<u8>, StatusView>::Ok(
                    frame_result(encoder, compressor, encoding, outcomes[i]->Ok_0)->Ok_0,
                )
            &&& fs[k] is Err
            &&& fs[k]->Err_0 == (match outcomes[k] {
                Result::Err(st) => st@,
                Result::Ok(item) => frame_result(encoder, compressor, encoding, item)->Err_0,
            })
        }),
    decreases k,
{
    let fs = frames_of(encoder, compressor, encoding, outcomes);
    if k == 0 {
    } else {
        let rest = outcomes.drop_first();
        assert(forall|i: int| 0 <= i < rest.len() ==> (#[trigger] rest[i]) == outcomes[i + 1]);
        lemma_single_terminal_failure(encoder, compressor, encoding, rest, k - 1);
        let fs_rest = frames_of(encoder, compressor, encoding, rest);
        assert(fs.len() == k + 1);
        assert forall|i: int| 0 <= i < k implies (#[trigger] fs[i]) == Result::<
            Seq<u8>,
            StatusView,
        >::Ok(frame_result(encoder, compressor, encoding, outcomes[i]->Ok_0)->Ok_0) by {
            if i > 0 {
                assert(fs[i] == fs_rest[i - 1]);
                assert(rest[i - 1] == outcomes[i]);
            }
        }
        assert(fs[k] == fs_rest[k - 1]);
        assert(rest[k - 1] == outcomes[k]);
    }
}

} // verus!
