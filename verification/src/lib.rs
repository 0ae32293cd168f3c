//! An incremental streaming-compression adapter: a stateful native
//! compressor is driven through a uniform, resumable push interface in
//! which the caller hands in arbitrarily sized, arbitrarily fragmented
//! input and output regions across many separate calls, and no byte is
//! lost, re-read, or double-written.

pub mod codec;
pub mod encoder;
pub mod unshared;
pub mod util;
