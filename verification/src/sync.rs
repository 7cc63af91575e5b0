//! The transform chain and the streaming copier.
//!
//! Bytes pulled from the source run through an ordered chain of stages —
//! optional compression, optional encryption, then the durable sink — while
//! a digest of the raw, pre-transform bytes is computed on the side. The
//! builder fixes the stage order; the copier guarantees that the digest
//! covers exactly the source bytes in order and that what reaches the sink
//! is exactly the transformed stream.

use vstd::prelude::*;
use vstd::slice::slice_subrange;

use crate::digest::fed_bytes;
use crate::digest::sha256_new;
use crate::digest::sha256_finalize;
use crate::digest::sha256_of;
use crate::digest::sha256_update;
use crate::digest::Sha256State;
use crate::error::HbpError;
use crate::xz::xz_compressed;
use crate::xz::xz_decompress;
use crate::xz::xz_fed;
use crate::xz::xz_finish;
use crate::xz::xz_new;
use crate::xz::xz_take;
use crate::xz::xz_taken;
use crate::xz::xz_write;
use crate::xz::XzSink;

verus! {

/// Options for one transfer: compress the stream, and/or encrypt it with a
/// passphrase, before it reaches the durable sink.
#[derive(Clone, Debug)]
pub struct SyncOptions {
    pub compress: bool,
    pub encrypt_pass: Option<String>,
}

/// One stage of the transform chain.
#[derive(Clone, Copy, Debug, PartialEq, Eq, Structural)]
pub enum Stage {
    Compress,
    Encrypt,
    FileSink,
}

/// The stage order the options call for: compression, when enabled, always
/// precedes encryption, and the durable sink always ends the chain.
pub open spec fn spec_stages(compress: bool, encrypted: bool) -> Seq<Stage> {
    if compress && encrypted {
        seq![Stage::Compress, Stage::Encrypt, Stage::FileSink]
    } else if compress {
        seq![Stage::Compress, Stage::FileSink]
    } else if encrypted {
        seq![Stage::Encrypt, Stage::FileSink]
    } else {
        seq![Stage::FileSink]
    }
}

/// Builds the ordered transform chain for the given options.
pub fn build_stages(opts: &SyncOptions) -> (r: Vec<Stage>)
    ensures
        r@ == spec_stages(opts.compress, opts.encrypt_pass is Some),
{
    let mut r: Vec<Stage> = Vec::new();
    if opts.compress {
        r.push(Stage::Compress);
    }
    if opts.encrypt_pass.is_some() {
        r.push(Stage::Encrypt);
    }
    r.push(Stage::FileSink);
    proof {
        assert(r@ =~= spec_stages(opts.compress, opts.encrypt_pass is Some));
    }
    r
}

/// Law: for every combination of options, the chain is well formed — exactly
/// one durable sink, standing last; a compression stage exactly when
/// compression is on, standing first; an encryption stage exactly when a
/// passphrase is set, standing just before the sink.
pub proof fn lemma_stage_table(compress: bool, encrypted: bool)
    ensures
        spec_stages(compress, encrypted).last() == Stage::FileSink,
        forall|i: int|
            0 <= i < spec_stages(compress, encrypted).len() - 1 ==> #[trigger] spec_stages(
                compress,
                encrypted,
            )[i] != Stage::FileSink,
        compress <==> spec_stages(compress, encrypted)[0] == Stage::Compress,
        encrypted <==> (spec_stages(compress, encrypted).len() >= 2 && spec_stages(
            compress,
            encrypted,
        )[spec_stages(compress, encrypted).len() - 2] == Stage::Encrypt),
        spec_stages(compress, encrypted).len() == 1 + (if compress {
            1int
        } else {
            0int
        }) + (if encrypted {
            1int
        } else {
            0int
        }),
{
}

/// The streaming copier: absorbs the source chunk by chunk, keeps the digest
/// of the raw bytes, and hands out the transformed bytes for the sink.
pub struct StreamCopier {
    digest: Sha256State,
    encoder: Option<XzSink>,
    bytes_in: u64,
}

impl StreamCopier {
    /// The raw source bytes absorbed so far, in order.
    pub closed spec fn src_bytes(self) -> Seq<u8> {
        fed_bytes(self.digest)
    }

    /// Whether the compression stage is part of this copier's chain.
    pub closed spec fn compressing(self) -> bool {
        self.encoder is Some
    }

    /// The transformed bytes handed out so far, in order: the compressed
    /// stream drained from the encoder, or the raw bytes themselves when
    /// compression is off.
    pub closed spec fn out_taken(self) -> Seq<u8> {
        match self.encoder {
            Some(e) => xz_taken(e),
            None => fed_bytes(self.digest),
        }
    }

    /// Internal invariant: the encoder, when present, has absorbed exactly
    /// the digested bytes, and the progress counter matches them.
    pub closed spec fn wf(self) -> bool {
        &&& (self.encoder matches Some(e) ==> xz_fed(e) == fed_bytes(self.digest))
        &&& self.bytes_in == self.src_bytes().len()
    }

    /// Bytes absorbed so far, for progress display.
    pub fn bytes_transferred(&self) -> (r: u64)
        requires
            self.wf(),
        ensures
            r == self.src_bytes().len(),
    {
        self.bytes_in
    }

    /// A fresh copier that has absorbed nothing.
    pub fn new(compress: bool) -> (r: StreamCopier)
        ensures
            r.wf(),
            r.compressing() == compress,
            r.src_bytes() == Seq::<u8>::empty(),
            r.out_taken() == Seq::<u8>::empty(),
    {
        let encoder = if compress {
            Some(xz_new())
        } else {
            None
        };
        StreamCopier { digest: sha256_new(), encoder, bytes_in: 0 }
    }

    /// Absorbs one chunk: the digest now covers it, and the returned bytes
    /// are the next piece of the transformed stream, to be written to the
    /// sink in order. Both transform paths write into memory, so absorbing a
    /// chunk cannot fail.
    pub fn push(&mut self, chunk: &[u8]) -> (r: Vec<u8>)
        requires
            old(self).wf(),
            old(self).src_bytes().len() + chunk@.len() <= u64::MAX,
        ensures
            final(self).wf(),
            final(self).compressing() == old(self).compressing(),
            final(self).src_bytes() == old(self).src_bytes() + chunk@,
            final(self).out_taken() == old(self).out_taken() + r@,
    {
        sha256_update(&mut self.digest, chunk);
        self.bytes_in = self.bytes_in + chunk.len() as u64;
        match &mut self.encoder {
            Some(enc) => {
                xz_write(enc, chunk);
                xz_take(enc)
            },
            None => {
                let mut piece: Vec<u8> = Vec::new();
                let mut i: usize = 0;
                while i < chunk.len()
                    invariant
                        0 <= i <= chunk@.len(),
                        piece@ == chunk@.subrange(0, i as int),
                    decreases chunk@.len() - i,
                {
                    piece.push(chunk[i]);
                    i = i + 1;
                }
                proof {
                    assert(piece@ =~= chunk@);
                }
                piece
            },
        }
    }

    /// Ends the stream: flushes the chain and finalizes the digest. Returns
    /// the trailing transformed bytes still owed to the sink, and the digest
    /// of all raw source bytes. Flushing into memory cannot fail.
    pub fn finish(self) -> (r: (Vec<u8>, Vec<u8>))
        requires
            self.wf(),
        ensures
            r.1@ == sha256_of(self.src_bytes()),
            r.1@.len() == 32,
            self.compressing() ==> self.out_taken() + r.0@ == xz_compressed(self.src_bytes()),
            !self.compressing() ==> r.0@ == Seq::<u8>::empty(),
    {
        let StreamCopier { digest, encoder, bytes_in: _ } = self;
        let tail: Vec<u8> = match encoder {
            Some(enc) => xz_finish(enc),
            None => Vec::new(),
        };
        let raw = sha256_finalize(digest);
        (tail, raw)
    }
}

/// Runs the whole copier over an in-memory source in chunks of `chunk_size`.
/// Returns the artifact bytes after the enabled transform and the digest of
/// the raw source. The digest never depends on the chunk size nor on whether
/// compression is on: it is always the digest of the source itself.
pub fn transform_all(source: &[u8], chunk_size: usize, compress: bool) -> (r: (Vec<u8>, Vec<u8>))
    requires
        1 <= chunk_size,
    ensures
        r.1@ == sha256_of(source@),
        r.1@.len() == 32,
        compress ==> r.0@ == xz_compressed(source@),
        !compress ==> r.0@ == source@,
{
    let mut copier = StreamCopier::new(compress);
    let mut out: Vec<u8> = Vec::new();
    let n = source.len();
    let mut i: usize = 0;
    while i < n
        invariant
            1 <= chunk_size,
            n == source@.len(),
            0 <= i <= n,
            copier.wf(),
            copier.compressing() == compress,
            copier.src_bytes() == source@.subrange(0, i as int),
            out@ == copier.out_taken(),
        decreases n - i,
    {
        let end = if n - i < chunk_size {
            n
        } else {
            i + chunk_size
        };
        let chunk = slice_subrange(source, i, end);
        let mut piece = copier.push(chunk);
        out.append(&mut piece);
        proof {
            assert(source@.subrange(0, i as int) + source@.subrange(i as int, end as int)
                =~= source@.subrange(0, end as int));
        }
        i = end;
    }
    proof {
        assert(source@.subrange(0, n as int) =~= source@);
    }
    let (mut tail, raw) = copier.finish();
    out.append(&mut tail);
    (out, raw)
}

/// Law: an artifact produced with compression on and no passphrase, when
/// decompressed, reproduces the original source bytes exactly — whatever
/// chunk size drove the copier. The decode is owed success because the
/// artifact is exactly the encoder's stream for the source.
pub fn compress_round_trip(source: &[u8], chunk_size: usize) -> (r: Result<Vec<u8>, HbpError>)
    requires
        1 <= chunk_size,
    ensures
        r is Ok,
        r->Ok_0@ == source@,
{
    let (artifact, _raw) = transform_all(source, chunk_size, true);
    xz_decompress(artifact.as_slice())
}

} // verus!
