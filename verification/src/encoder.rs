//! The concrete backend: one native zstd compression context driven
//! through the `Encode` contract. The native calls report how many bytes
//! they read and wrote; this layer turns those counts into cursor
//! advances and the codec's completion signalling into the boolean the
//! contract promises.

use vstd::prelude::*;
use crate::codec::{CodecError, Encode, EncodeState};
use crate::unshared::Unshared;
use crate::util::{lemma_full_region_unchanged, PartialBuffer};
use zstd::stream::raw::Operation;

verus! {

/// The native compression context.
#[verifier::external_type_specification]
#[verifier::external_body]
pub struct ExRawEncoder<'a>(zstd::stream::raw::Encoder<'a>);

/// Immutable construction parameters of an encoder: the compression
/// quality (a codec-defined level) and how many worker threads the codec
/// may spawn internally. Zero threads means the codec compresses on the
/// calling thread. The thread count is a performance and memory knob
/// only: whatever it is set to, the compressed stream decompresses to the
/// same original bytes.
#[derive(Clone, Copy, Debug, PartialEq, Eq, Structural)]
pub struct ZstdEncoderParams {
    pub quality: i32,
    pub num_threads: u32,
}

impl Default for ZstdEncoderParams {
    /// The codec's default quality, compressing on the calling thread.
    fn default() -> (r: Self)
        ensures
            r.quality == 0,
            r.num_threads == 0,
    {
        ZstdEncoderParams { quality: 0, num_threads: 0 }
    }
}

/// Relies on zstd::stream::raw::Encoder::new: builds a fresh native
/// compression context at the given quality level, or reports the codec's
/// error (an invalid level, or an allocation failure).
#[verifier::external_body]
fn raw_new_encoder(quality: i32) -> (r: Result<zstd::stream::raw::Encoder<'static>, std::io::Error>)
{
    zstd::stream::raw::Encoder::new(quality)
}

/// Relies on zstd::stream::raw::Encoder::set_parameter with
/// zstd_safe::CParameter::NbWorkers: configures how many worker threads
/// the context spawns for its internal jobs; a count the build does not
/// support is reported as an error and leaves the context usable.
#[verifier::external_body]
fn raw_set_workers(
    enc: &mut zstd::stream::raw::Encoder<'static>,
    num_threads: u32,
) -> (r: Result<(), std::io::Error>)
{
    enc.set_parameter(zstd_safe::CParameter::NbWorkers(num_threads))
}

/// Relies on zstd::stream::raw::Operation::run_on_buffers: one bounded
/// step of streaming compression that reads some prefix of `input` and
/// writes some prefix of `output[out_index..]`, reporting exactly how many
/// bytes went each way; the counts never exceed the regions handed in, the
/// output region keeps its length, and the bytes before `out_index` are
/// not touched.
#[verifier::external_body]
fn raw_run(
    enc: &mut zstd::stream::raw::Encoder<'static>,
    input: &[u8],
    output: &mut Vec<u8>,
    out_index: usize,
) -> (r: Result<(usize, usize), std::io::Error>)
    requires
        out_index <= old(output).len(),
    ensures
        final(output)@.len() == old(output)@.len(),
        final(output)@.subrange(0, out_index as int) == old(output)@.subrange(0, out_index as int),
        r matches Ok(counts) ==> counts.0 <= input@.len() && out_index + counts.1
            <= final(output)@.len(),
{
    match enc.run_on_buffers(input, &mut output[out_index..]) {
        Ok(status) => Ok((status.bytes_read, status.bytes_written)),
        Err(e) => Err(e),
    }
}

/// Relies on zstd::stream::raw::Operation::flush (ZSTD_flushStream through
/// a zstd_safe::OutBuffer around `output[out_index..]`): drains buffered
/// compressed bytes into that region and reports how many bytes it wrote
/// there together with a lower bound on what is still buffered — zero
/// still buffered means the flush is complete. The output region keeps its
/// length and the bytes before `out_index` are not touched.
#[verifier::external_body]
fn raw_flush(
    enc: &mut zstd::stream::raw::Encoder<'static>,
    output: &mut Vec<u8>,
    out_index: usize,
) -> (r: Result<(usize, usize), std::io::Error>)
    requires
        out_index <= old(output).len(),
    ensures
        final(output)@.len() == old(output)@.len(),
        final(output)@.subrange(0, out_index as int) == old(output)@.subrange(0, out_index as int),
        r matches Ok(counts) ==> out_index + counts.0 <= final(output)@.len(),
{
    let mut out_buf = zstd_safe::OutBuffer::around(&mut output[out_index..]);
    match enc.flush(&mut out_buf) {
        Ok(pending) => Ok((out_buf.pos(), pending)),
        Err(e) => Err(e),
    }
}

/// Relies on zstd::stream::raw::Operation::finish (ZSTD_endStream through
/// a zstd_safe::OutBuffer around `output[out_index..]`): emits the
/// stream's terminal frame bytes into that region and reports how many
/// bytes it wrote there together with a lower bound on what is still to be
/// written — zero means the stream is fully terminated and drained. The
/// output region keeps its length and the bytes before `out_index` are
/// not touched.
#[verifier::external_body]
fn raw_finish(
    enc: &mut zstd::stream::raw::Encoder<'static>,
    output: &mut Vec<u8>,
    out_index: usize,
) -> (r: Result<(usize, usize), std::io::Error>)
    requires
        out_index <= old(output).len(),
    ensures
        final(output)@.len() == old(output)@.len(),
        final(output)@.subrange(0, out_index as int) == old(output)@.subrange(0, out_index as int),
        r matches Ok(counts) ==> out_index + counts.0 <= final(output)@.len(),
{
    let mut out_buf = zstd_safe::OutBuffer::around(&mut output[out_index..]);
    match enc.finish(&mut out_buf, true) {
        Ok(pending) => Ok((out_buf.pos(), pending)),
        Err(e) => Err(e),
    }
}

/// Translate a drain report of the native codec — how many bytes it wrote
/// into the region in front of the cursor, and how many it still holds
/// back — into the cursor advance and the completion flag the `Encode`
/// contract promises: the drain is complete exactly when the codec holds
/// nothing back.
pub fn apply_drain(output: &mut PartialBuffer, written: usize, pending: usize) -> (done: bool)
    requires
        old(output).wf(),
        written <= old(output).remaining(),
    ensures
        final(output).wf(),
        final(output).bytes() == old(output).bytes(),
        final(output).pos() == old(output).pos() + written,
        done == (pending == 0),
{
    output.advance(written);
    pending == 0
}

/// One native zstd compression context, exclusively owned, driven through
/// the `Encode` contract. The lifecycle stage it has reached is private:
/// completion is observable through the returned flags alone, exactly as
/// the contract states, and once the stream has completed, a further
/// `finish` reports completion again without touching the codec.
pub struct ZstdEncoder {
    encoder: Unshared<zstd::stream::raw::Encoder<'static>>,
    state: EncodeState,
}

impl ZstdEncoder {
    /// Build an encoder from its parameters: a context at the given
    /// quality, configured for the requested number of internal worker
    /// threads when that count is above zero (zero leaves the codec
    /// compressing on the calling thread). A parameter the codec rejects,
    /// or a failure to build the context, is reported as an error.
    pub fn new(params: ZstdEncoderParams) -> (r: Result<Self, CodecError>)
        ensures
            r matches Ok(enc) ==> enc.state() == EncodeState::Ready,
    {
        let mut raw = match raw_new_encoder(params.quality) {
            Ok(raw) => raw,
            Err(e) => {
                return Err(CodecError::new(e));
            },
        };
        if params.num_threads > 0 {
            match raw_set_workers(&mut raw, params.num_threads) {
                Ok(()) => (),
                Err(e) => {
                    return Err(CodecError::new(e));
                },
            }
        }
        Ok(ZstdEncoder { encoder: Unshared::new(raw), state: EncodeState::Ready })
    }

    /// The same construction, under the name a caller reaches for when the
    /// worker-thread count is the point: the count is part of the
    /// parameters either way.
    pub fn with_threads(params: ZstdEncoderParams) -> (r: Result<Self, CodecError>)
        ensures
            r matches Ok(enc) ==> enc.state() == EncodeState::Ready,
    {
        Self::new(params)
    }
}

impl Encode for ZstdEncoder {
    closed spec fn state(&self) -> EncodeState {
        self.state
    }

    fn encode(&mut self, input: &mut PartialBuffer, output: &mut PartialBuffer) -> (r: Result<
        (),
        CodecError,
    >) {
        let out_index = output.position();
        let result = raw_run(
            self.encoder.get_mut(),
            input.unwritten(),
            output.buffer_mut(),
            out_index,
        );
        proof {
            if old(output).remaining() == 0 {
                lemma_full_region_unchanged(*old(output), *output);
            }
        }
        match result {
            Ok((bytes_read, bytes_written)) => {
                input.advance(bytes_read);
                output.advance(bytes_written);
                Ok(())
            },
            Err(e) => {
                self.state = EncodeState::Failed;
                Err(CodecError::new(e))
            },
        }
    }

    fn flush(&mut self, output: &mut PartialBuffer) -> (r: Result<bool, CodecError>) {
        let out_index = output.position();
        let result = raw_flush(self.encoder.get_mut(), output.buffer_mut(), out_index);
        proof {
            if old(output).remaining() == 0 {
                lemma_full_region_unchanged(*old(output), *output);
            }
        }
        match result {
            Ok((bytes_written, pending)) => {
                let done = apply_drain(output, bytes_written, pending);
                if done {
                    self.state = EncodeState::Ready;
                } else {
                    self.state = EncodeState::Flushing;
                }
                Ok(done)
            },
            Err(e) => {
                self.state = EncodeState::Failed;
                Err(CodecError::new(e))
            },
        }
    }

    fn finish(&mut self, output: &mut PartialBuffer) -> (r: Result<bool, CodecError>) {
        if self.state == EncodeState::Complete {
            return Ok(true);
        }
        let out_index = output.position();
        let result = raw_finish(self.encoder.get_mut(), output.buffer_mut(), out_index);
        proof {
            if old(output).remaining() == 0 {
                lemma_full_region_unchanged(*old(output), *output);
            }
        }
        match result {
            Ok((bytes_written, pending)) => {
                let done = apply_drain(output, bytes_written, pending);
                if done {
                    self.state = EncodeState::Complete;
                } else {
                    self.state = EncodeState::Finishing;
                }
                Ok(done)
            },
            Err(e) => {
                self.state = EncodeState::Failed;
                Err(CodecError::new(e))
            },
        }
    }
}

} // verus!
