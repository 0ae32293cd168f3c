//! The contract every streaming-compressor backend offers: feed input and
//! drain output through partially consumed buffer regions, across as many
//! calls as the caller cares to make.

use vstd::prelude::*;
use crate::util::PartialBuffer;

verus! {

/// Where an encoder stands in its lifecycle. New input is accepted only in
/// `Ready`; a pending `flush` or `finish` must be re-invoked with more
/// output space before anything else; once `finish` has reported
/// completion only `finish` remains valid, and it reports completion again
/// without producing a byte; once the codec has failed, no call is valid.
#[derive(Clone, Copy, Debug, PartialEq, Eq, Structural)]
pub enum EncodeState {
    /// New input may be fed through `encode`.
    Ready,
    /// A `flush` returned with output still pending; call `flush` again.
    Flushing,
    /// A `finish` returned with output still pending; call `finish` again.
    Finishing,
    /// `finish` reported completion; the stream is terminated and drained.
    Complete,
    /// The codec reported an error; the encoder must be discarded.
    Failed,
}

/// The error surface of the native codec.
#[verifier::external_type_specification]
#[verifier::external_body]
pub struct ExIoError(std::io::Error);

/// A codec runtime or configuration failure, surfaced as the I/O-kind
/// error the native layer reported. It is never retried here: the caller
/// decides whether to abandon the stream.
#[derive(Debug)]
pub struct CodecError {
    inner: std::io::Error,
}

impl CodecError {
    /// The error the native layer reported.
    pub closed spec fn io(&self) -> std::io::Error {
        self.inner
    }

    /// Wrap an error the native layer reported.
    pub fn new(inner: std::io::Error) -> (r: Self)
        ensures
            r.io() == inner,
    {
        CodecError { inner }
    }

    /// The underlying error, for the caller's own error surface.
    pub fn into_inner(self) -> (r: std::io::Error)
        ensures
            r == self.io(),
    {
        self.inner
    }
}

/// The abstract operation set of a streaming compressor backend.
///
/// Every operation advances the cursors of the regions it was handed by
/// exactly the bytes it actually transferred, never shrinks a region,
/// never rewrites what was already produced, and leaves both cursors
/// untouched when it was handed empty regions. Completion is observable
/// through the returned flag alone, never by inspecting codec internals.
pub trait Encode {
    /// Where this encoder stands in its lifecycle.
    spec fn state(&self) -> EncodeState;

    /// Consume as much of the unread part of `input` as the codec can
    /// absorb in one bounded step, producing as much compressed output as
    /// fits in the unfilled part of `output`. Either cursor may move by
    /// zero bytes; the caller must be prepared to call again.
    fn encode(&mut self, input: &mut PartialBuffer, output: &mut PartialBuffer) -> (r: Result<
        (),
        CodecError,
    >)
        requires
            old(self).state() == EncodeState::Ready,
            old(input).wf(),
            old(output).wf(),
        ensures
            final(input).wf(),
            final(output).wf(),
            final(input).bytes() == old(input).bytes(),
            old(input).pos() <= final(input).pos() <= old(input).bytes().len(),
            final(output).bytes().len() == old(output).bytes().len(),
            final(output).bytes().subrange(0, old(output).pos()) == old(output).written_view(),
            old(output).pos() <= final(output).pos() <= old(output).bytes().len(),
            old(input).remaining() == 0 ==> final(input).pos() == old(input).pos(),
            old(output).remaining() == 0 ==> final(output).pos() == old(output).pos()
                && final(output).bytes() == old(output).bytes(),
            r is Err ==> final(input).pos() == old(input).pos()
                && final(output).pos() == old(output).pos(),
            r is Ok ==> final(self).state() == EncodeState::Ready,
            r is Err ==> final(self).state() == EncodeState::Failed,
    ;

    /// Ask the codec to emit what it has buffered but not yet output,
    /// without ending the stream. Returns `true` iff everything pending
    /// was drained into `output`; on `false` it must be called again with
    /// more output space before new input may be encoded.
    fn flush(&mut self, output: &mut PartialBuffer) -> (r: Result<bool, CodecError>)
        requires
            old(self).state() == EncodeState::Ready || old(self).state() == EncodeState::Flushing,
            old(output).wf(),
        ensures
            final(output).wf(),
            final(output).bytes().len() == old(output).bytes().len(),
            final(output).bytes().subrange(0, old(output).pos()) == old(output).written_view(),
            old(output).pos() <= final(output).pos() <= old(output).bytes().len(),
            old(output).remaining() == 0 ==> final(output).pos() == old(output).pos()
                && final(output).bytes() == old(output).bytes(),
            r is Err ==> final(output).pos() == old(output).pos(),
            r matches Ok(true) ==> final(self).state() == EncodeState::Ready,
            r matches Ok(false) ==> final(self).state() == EncodeState::Flushing,
            r is Err ==> final(self).state() == EncodeState::Failed,
    ;

    /// Like `flush`, but additionally signals end-of-stream to the codec,
    /// so the terminal frame bytes are emitted. Returns `true` iff the
    /// stream is fully terminated and drained. Once it has completed, a
    /// further `finish` only reports completion again: there is nothing
    /// more to drain, so it touches neither the codec nor the output
    /// region; `encode` and `flush` stay invalid.
    fn finish(&mut self, output: &mut PartialBuffer) -> (r: Result<bool, CodecError>)
        requires
            old(self).state() != EncodeState::Failed,
            old(output).wf(),
        ensures
            final(output).wf(),
            final(output).bytes().len() == old(output).bytes().len(),
            final(output).bytes().subrange(0, old(output).pos()) == old(output).written_view(),
            old(output).pos() <= final(output).pos() <= old(output).bytes().len(),
            old(output).remaining() == 0 ==> final(output).pos() == old(output).pos()
                && final(output).bytes() == old(output).bytes(),
            old(self).state() == EncodeState::Complete ==> (r matches Ok(true))
                && final(output).pos() == old(output).pos()
                && final(output).bytes() == old(output).bytes(),
            r is Err ==> final(output).pos() == old(output).pos(),
            r matches Ok(true) ==> final(self).state() == EncodeState::Complete,
            r matches Ok(false) ==> final(self).state() == EncodeState::Finishing,
            r is Err ==> final(self).state() == EncodeState::Failed,
    ;
}

} // verus!
