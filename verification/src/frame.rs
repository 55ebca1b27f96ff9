//! Frame assembly: one message becomes one wire frame.
//!
//! A frame is a five-byte header followed by the payload: one byte that says
//! whether the payload is compressed, then the payload's byte length as a
//! big-endian unsigned 32-bit integer, then the payload itself.  The
//! serializer and the compressor are pluggable capabilities, stateless per
//! call, described by the `MessageEncoder` and `FrameCompressor` traits.

use vstd::prelude::*;

use crate::status::{Code, Status, StatusView};

verus! {

/// Size of a frame header: the compression flag plus the length field.
pub const HEADER_SIZE: usize = 5;

/// The four bytes of `n` in big-endian order.
pub open spec fn u32_be_bytes(n: u32) -> Seq<u8> {
    seq![(n >> 24) as u8, (n >> 16) as u8, (n >> 8) as u8, n as u8]
}

/// The unsigned 32-bit integer read from four big-endian bytes.
pub open spec fn u32_of_be(b: Seq<u8>) -> u32
    recommends
        b.len() == 4,
{
    (((b[0] as u32) << 24) | ((b[1] as u32) << 16) | ((b[2] as u32) << 8) | (b[3] as u32)) as u32
}

/// Writing a length field and reading it back yields the same value.
pub proof fn lemma_u32_be_round_trip(n: u32)
    ensures
        u32_of_be(u32_be_bytes(n)) == n,
{
    assert((((((n >> 24) as u8) as u32) << 24) | ((((n >> 16) as u8) as u32) << 16) | ((((n
        >> 8) as u8) as u32) << 8) | ((n as u8) as u32)) == n) by (bit_vector);
}

/// The full bytes of one wire frame: header, then payload.
pub open spec fn frame_bytes(compressed: bool, payload: Seq<u8>) -> Seq<u8>
    recommends
        payload.len() <= u32::MAX,
{
    seq![if compressed { 1u8 } else { 0u8 }] + u32_be_bytes(payload.len() as u32) + payload
}

/// Frame well-formedness: the header is five bytes, its first byte is the
/// compression flag, its four-byte length field holds exactly the byte count
/// of the payload that follows it, and that payload is transmitted unchanged.
pub proof fn lemma_frame_well_formed(compressed: bool, payload: Seq<u8>)
    requires
        payload.len() <= u32::MAX,
    ensures
        ({
            let f = frame_bytes(compressed, payload);
            &&& f.len() == HEADER_SIZE + payload.len()
            &&& f[0] == (if compressed { 1u8 } else { 0u8 })
            &&& u32_of_be(f.subrange(1, HEADER_SIZE as int)) == payload.len()
            &&& f.skip(HEADER_SIZE as int) == payload
        }),
{
    let f = frame_bytes(compressed, payload);
    let n = payload.len() as u32;
    assert(f.subrange(1, HEADER_SIZE as int) =~= u32_be_bytes(n));
    lemma_u32_be_round_trip(n);
    assert(f.skip(HEADER_SIZE as int) =~= payload);
}

/// The compression algorithm negotiated for an exchange.
#[derive(Clone, Copy, PartialEq, Eq, Structural, Debug)]
pub enum CompressionEncoding {
    Gzip,
}

/// A pluggable per-message serializer.  A call appends the serialization of
/// one message to a buffer, or fails leaving the buffer untouched; it is
/// stateless per call, so what it writes is a function of the capability's
/// configuration and the message alone.
pub trait MessageEncoder: Sized {
    type Item;

    /// Whether serializing `item` succeeds.
    spec fn accepts(&self, item: &Self::Item) -> bool;

    /// The bytes that serializing `item` appends.
    spec fn encoding(&self, item: &Self::Item) -> Seq<u8>;

    /// Serialize one message, appending its bytes to `buf`.
    fn encode(&self, item: &Self::Item, buf: &mut Vec<u8>) -> (r: Result<(), ()>)
        ensures
            (r is Ok) == self.accepts(item),
            r is Ok ==> final(buf)@ == old(buf)@ + self.encoding(item),
            r is Err ==> final(buf)@ == old(buf)@,
    ;
}

/// A pluggable block compressor.  A call appends the compression of a
/// known-length source buffer to a destination buffer, or fails leaving the
/// destination untouched; it is stateless per call.
pub trait FrameCompressor: Sized {
    /// Whether compressing `src` under `encoding` succeeds.
    spec fn accepts(&self, encoding: CompressionEncoding, src: Seq<u8>) -> bool;

    /// The bytes that compressing `src` under `encoding` appends.
    spec fn compressed(&self, encoding: CompressionEncoding, src: Seq<u8>) -> Seq<u8>;

    /// Compress `src` (whose length is `src_len`), appending to `dst`.
    fn compress(
        &self,
        encoding: CompressionEncoding,
        src: &Vec<u8>,
        src_len: usize,
        dst: &mut Vec<u8>,
    ) -> (r: Result<(), ()>)
        requires
            src_len == src@.len(),
        ensures
            (r is Ok) == self.accepts(encoding, src@),
            r is Ok ==> final(dst)@ == old(dst)@ + self.compressed(encoding, src@),
            r is Err ==> final(dst)@ == old(dst)@,
    ;
}

/// The status reported when the serializer fails.
pub open spec fn encode_error_status() -> StatusView {
    StatusView { code: Code::Internal, message: "encode error"@ }
}

/// The status reported when the compressor fails.
pub open spec fn compress_error_status() -> StatusView {
    StatusView { code: Code::Internal, message: "compress error"@ }
}

/// The status reported when a payload is too long for the length field.
pub open spec fn oversize_error_status() -> StatusView {
    StatusView { code: Code::Internal, message: "frame too large"@ }
}

/// What assembling one message yields: the bytes of its frame, or the
/// terminal status of the first capability failure.
pub open spec fn frame_result<E: MessageEncoder, C: FrameCompressor>(
    encoder: E,
    compressor: C,
    encoding: Option<CompressionEncoding>,
    item: E::Item,
) -> Result<Seq<u8>, StatusView> {
    if !encoder.accepts(&item) {
        Result::Err(encode_error_status())
    } else {
        match encoding {
            Option::None => {
                let raw = encoder.encoding(&item);
                if raw.len() > u32::MAX {
                    Result::Err(oversize_error_status())
                } else {
                    Result::Ok(frame_bytes(false, raw))
                }
            },
            Option::Some(enc) => {
                let raw = encoder.encoding(&item);
                if !compressor.accepts(enc, raw) {
                    Result::Err(compress_error_status())
                } else if compressor.compressed(enc, raw).len() > u32::MAX {
                    Result::Err(oversize_error_status())
                } else {
                    Result::Ok(frame_bytes(true, compressor.compressed(enc, raw)))
                }
            },
        }
    }
}

/// Compression flag correctness: on success the frame's flag byte mirrors
/// the compression selection, and the payload is the compressor's output on
/// the encoder's output when compression is on, the encoder's output
/// unchanged when it is off.
pub proof fn lemma_compression_flag<E: MessageEncoder, C: FrameCompressor>(
    encoder: E,
    compressor: C,
    encoding: Option<CompressionEncoding>,
    item: E::Item,
)
    requires
        frame_result(encoder, compressor, encoding, item) is Ok,
    ensures
        ({
            let f = frame_result(encoder, compressor, encoding, item)->Ok_0;
            match encoding {
                Option::None => f == frame_bytes(false, encoder.encoding(&item)) && f[0] == 0u8,
                Option::Some(enc) => f == frame_bytes(
                    true,
                    compressor.compressed(enc, encoder.encoding(&item)),
                ) && f[0] == 1u8,
            }
        }),
{
}

/// Assemble one message into one complete wire frame.
///
/// Five header bytes are reserved in `buf` at the current write position,
/// the payload is produced after them (serialized directly, or serialized
/// into `scratch` and then compressed), the header is backfilled once the
/// payload length is known, and the finished frame is split back out of
/// `buf`, which is left as it was found so its capacity can be reused.
pub fn assemble_frame<E: MessageEncoder, C: FrameCompressor>(
    encoder: &E,
    item: &E::Item,
    compressor: &C,
    encoding: Option<CompressionEncoding>,
    buf: &mut Vec<u8>,
    scratch: &mut Vec<u8>,
) -> (r: Result<Vec<u8>, Status>)
    ensures
        final(buf)@ == old(buf)@,
        (r is Ok) == (frame_result(*encoder, *compressor, encoding, *item) is Ok),
        r is Ok ==> (r->Ok_0)@ == frame_result(*encoder, *compressor, encoding, *item)->Ok_0,
        r is Err ==> (r->Err_0)@ == frame_result(*encoder, *compressor, encoding, *item)->Err_0,
{
    let start = buf.len();
    buf.push(0u8);
    buf.push(0u8);
    buf.push(0u8);
    buf.push(0u8);
    buf.push(0u8);

    let compressed: bool;
    match encoding {
        Option::None => {
            compressed = false;
            match encoder.encode(item, buf) {
                Result::Ok(_) => {},
                Result::Err(_) => {
                    buf.truncate(start);
                    assert(buf@ =~= old(buf)@);
                    return Result::Err(Status::internal("encode error"));
                },
            }
        },
        Option::Some(enc) => {
            compressed = true;
            scratch.clear();
            match encoder.encode(item, scratch) {
                Result::Ok(_) => {},
                Result::Err(_) => {
                    buf.truncate(start);
                    assert(buf@ =~= old(buf)@);
                    return Result::Err(Status::internal("encode error"));
                },
            }
            let src_len = scratch.len();
            match compressor.compress(enc, scratch, src_len, buf) {
                Result::Ok(_) => {},
                Result::Err(_) => {
                    buf.truncate(start);
                    assert(buf@ =~= old(buf)@);
                    return Result::Err(Status::internal("compress error"));
                },
            }
        },
    }

    let ghost payload = buf@.subrange(start + HEADER_SIZE as int, buf@.len() as int);
    let total = buf.len();
    let payload_len = total - start - HEADER_SIZE;
    assert(payload.len() == payload_len);
    if payload_len > u32::MAX as usize {
        buf.truncate(start);
        assert(buf@ =~= old(buf)@);
        return Result::Err(Status::internal("frame too large"));
    }
    let len32: u32 = payload_len as u32;

    buf[start] = if compressed {
        1u8
    } else {
        0u8
    };
    buf[start + 1] = (len32 >> 24) as u8;
    buf[start + 2] = (len32 >> 16) as u8;
    buf[start + 3] = (len32 >> 8) as u8;
    buf[start + 4] = len32 as u8;

    let mut frame: Vec<u8> = Vec::new();
    let mut j = start;
    while j < buf.len()
        invariant
            start <= j <= buf@.len(),
            buf@.len() == total,
            frame@ == buf@.subrange(start as int, j as int),
        decreases buf@.len() - j,
    {
        let b = buf[j];
        frame.push(b);
        j += 1;
        assert(frame@ =~= buf@.subrange(start as int, j as int));
    }
    assert(frame@ =~= seq![if compressed { 1u8 } else { 0u8 }] + u32_be_bytes(len32) + payload);
    buf.truncate(start);
    assert(buf@ =~= old(buf)@);
    Result::Ok(frame)
}

/// An encoder for messages that are already byte strings: serialization
/// appends the bytes unchanged, refusing a message longer than the
/// configured limit.
pub struct RawEncoder {
    pub max_len: usize,
}

impl RawEncoder {
    /// An encoder that accepts messages of any length.
    pub fn unbounded() -> (e: RawEncoder)
        ensures
            e.max_len == usize::MAX,
    {
        RawEncoder { max_len: usize::MAX }
    }

    /// An encoder that refuses messages longer than `max_len` bytes.
    pub fn with_limit(max_len: usize) -> (e: RawEncoder)
        ensures
            e.max_len == max_len,
    {
        RawEncoder { max_len }
    }
}

impl MessageEncoder for RawEncoder {
    type Item = Vec<u8>;

    open spec fn accepts(&self, item: &Vec<u8>) -> bool {
        item@.len() <= self.max_len
    }

    open spec fn encoding(&self, item: &Vec<u8>) -> Seq<u8> {
        item@
    }

    fn encode(&self, item: &Vec<u8>, buf: &mut Vec<u8>) -> (r: Result<(), ()>) {
        if item.len() <= self.max_len {
            let mut j: usize = 0;
            while j < item.len()
                invariant
                    j <= item@.len(),
                    buf@ == old(buf)@ + item@.subrange(0, j as int),
                decreases item@.len() - j,
            {
                let b = item[j];
                buf.push(b);
                j += 1;
                assert(buf@ =~= old(buf)@ + item@.subrange(0, j as int));
            }
            assert(buf@ =~= old(buf)@ + item@);
            Result::Ok(())
        } else {
            Result::Err(())
        }
    }
}

/// A compressor that copies its source unchanged, refusing a source longer
/// than the configured limit.  It stands in for a real compression
/// capability wherever the selected algorithm is the identity.
pub struct IdentityCompressor {
    pub max_len: usize,
}

impl IdentityCompressor {
    /// A compressor that accepts sources of any length.
    pub fn unbounded() -> (c: IdentityCompressor)
        ensures
            c.max_len == usize::MAX,
    {
        IdentityCompressor { max_len: usize::MAX }
    }

    /// A compressor that refuses sources longer than `max_len` bytes.
    pub fn with_limit(max_len: usize) -> (c: IdentityCompressor)
        ensures
            c.max_len == max_len,
    {
        IdentityCompressor { max_len }
    }
}

impl FrameCompressor for IdentityCompressor {
    open spec fn accepts(&self, encoding: CompressionEncoding, src: Seq<u8>) -> bool {
        src.len() <= self.max_len
    }

    open spec fn compressed(&self, encoding: CompressionEncoding, src: Seq<u8>) -> Seq<u8> {
        src
    }

    fn compress(
        &self,
        encoding: CompressionEncoding,
        src: &Vec<u8>,
        src_len: usize,
        dst: &mut Vec<u8>,
    ) -> (r: Result<(), ()>) {
        if src.len() <= self.max_len {
            let mut j: usize = 0;
            while j < src.len()
                invariant
                    j <= src@.len(),
                    dst@ == old(dst)@ + src@.subrange(0, j as int),
                decreases src@.len() - j,
            {
                let b = src[j];
                dst.push(b);
                j += 1;
                assert(dst@ =~= old(dst)@ + src@.subrange(0, j as int));
            }
            assert(dst@ =~= old(dst)@ + src@);
            Result::Ok(())
        } else {
            Result::Err(())
        }
    }
}

} // verus!
