//! Streaming compression stage, backed by the xz2 crate.
//!
//! The compressor is driven chunk by chunk and its output can be drained at
//! any point; the trailing frame is written by an explicit finish step. The
//! complete stream the encoder produces for a given input is given a name
//! (`xz_compressed`) that the copier's contracts speak of.
//!
//! The encoder writes into an in-memory buffer, and writes into such a sink
//! cannot fail: the sink's own write is infallible, and the encoder surfaces
//! its internal errors (exhausted memory only) by panicking, never through
//! the `Result` of its write path. The encoding wrappers therefore owe
//! success; only decoding, which faces arbitrary input bytes, can fail.

use std::io::Read;
use std::io::Write;
use vstd::prelude::*;

use crate::error::HbpError;

verus! {

/// The complete xz stream the xz2 encoder, at this library's fixed level,
/// produces for `data`.
pub uninterp spec fn xz_compressed(data: Seq<u8>) -> Seq<u8>;

/// Streaming xz compressor writing into an in-memory buffer.
#[verifier::external_body]
pub struct XzSink {
    inner: xz2::write::XzEncoder<Vec<u8>>,
}

/// Raw bytes fed to the compressor so far, in order.
pub uninterp spec fn xz_fed(e: XzSink) -> Seq<u8>;

/// Compressed bytes already drained out of the compressor's buffer, in order.
pub uninterp spec fn xz_taken(e: XzSink) -> Seq<u8>;

/// Relies on xz2::write::XzEncoder::new over an empty Vec sink.
#[verifier::external_body]
pub fn xz_new() -> (e: XzSink)
    ensures
        xz_fed(e) == Seq::<u8>::empty(),
        xz_taken(e) == Seq::<u8>::empty(),
{
    XzSink { inner: xz2::write::XzEncoder::new(Vec::new(), 6) }
}

/// Relies on Write::write_all of xz2::write::XzEncoder: the chunk is
/// absorbed, in order, after everything fed before. With a Vec sink the call
/// cannot return an error (see the module note).
#[verifier::external_body]
pub fn xz_write(e: &mut XzSink, chunk: &[u8])
    ensures
        xz_fed(*final(e)) == xz_fed(*old(e)) + chunk@,
        xz_taken(*final(e)) == xz_taken(*old(e)),
{
    e.inner.write_all(chunk).expect("xz encoder write into memory");
}

/// Relies on XzEncoder::get_mut (and std::mem::take): drains the compressed
/// bytes produced so far without disturbing the compressor's input state.
#[verifier::external_body]
pub fn xz_take(e: &mut XzSink) -> (r: Vec<u8>)
    ensures
        xz_fed(*final(e)) == xz_fed(*old(e)),
        xz_taken(*final(e)) == xz_taken(*old(e)) + r@,
{
    std::mem::take(e.inner.get_mut())
}

/// Relies on XzEncoder::finish: writes the trailing frame, so that everything
/// drained over the whole run is exactly the xz stream of the bytes fed. With
/// a Vec sink the call cannot return an error (see the module note).
#[verifier::external_body]
pub fn xz_finish(e: XzSink) -> (r: Vec<u8>)
    ensures
        xz_taken(e) + r@ == xz_compressed(xz_fed(e)),
{
    e.inner.finish().expect("xz encoder finish into memory")
}

/// Relies on xz2::read::XzDecoder (via Read::read_to_end): decoding inverts
/// encoding, so an input that is the xz stream of some data decodes to
/// exactly that data. Arbitrary other input may fail to decode.
#[verifier::external_body]
pub fn xz_decompress(data: &[u8]) -> (r: Result<Vec<u8>, HbpError>)
    ensures
        forall|d: Seq<u8>|
            data@ == #[trigger] xz_compressed(d) ==> r is Ok && r->Ok_0@ == d,
        r is Err ==> r->Err_0 is IoFailure,
{
    let mut out = Vec::new();
    let mut dec = xz2::read::XzDecoder::new(data);
    match dec.read_to_end(&mut out) {
        Ok(_) => Ok(out),
        Err(err) => Err(HbpError::IoFailure(format!("xz decode: {err}"))),
    }
}

} // verus!
