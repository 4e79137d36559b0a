//! Payload decompression. A packet whose header carries protocol version 2
//! holds a zlib-compressed body; inflating it yields a buffer of
//! concatenated sub-packets for the frame codec to split.

use vstd::prelude::*;

verus! {

/// The body of a compressed frame could not be inflated: the zlib stream is
/// corrupt. The offending frame is dropped; the receive loop goes on.
#[derive(Debug, Clone, Copy, PartialEq, Eq, Structural)]
pub struct DecompressError;

/// What zlib inflation yields for `data`: the inflated bytes, or `None`
/// for a stream that is not a whole, well-formed zlib stream. Inflation is
/// deterministic, so both the outcome and the bytes are a function of the
/// input alone; what that function computes is stated nowhere and checked
/// only by running the decompressor.
pub uninterp spec fn inflate_of(data: Seq<u8>) -> Option<Seq<u8>>;

/// Relies on flate2's `ZlibDecoder` together with `Read::read_to_end`: it
/// inflates the whole zlib stream into a buffer, fails exactly on a
/// corrupt stream, and depends on nothing but the input bytes.
#[verifier::external_body]
fn inflate_raw(data: &[u8]) -> (r: Option<Vec<u8>>)
    ensures
        r matches Some(v) ==> inflate_of(data@) == Some(v@),
        r is None ==> inflate_of(data@) is None,
{
    let mut d = flate2::read::ZlibDecoder::new(data);
    let mut buf = Vec::new();
    match std::io::Read::read_to_end(&mut d, &mut buf) {
        Ok(_) => Some(buf),
        Err(_) => None,
    }
}

/// Inflates a zlib-compressed packet body: exactly the inflation of the
/// input bytes, or `DecompressError` exactly when the stream is corrupt.
pub fn zlib_dec(data: &[u8]) -> (r: Result<Vec<u8>, DecompressError>)
    ensures
        r matches Ok(v) ==> inflate_of(data@) == Some(v@),
        r is Err ==> inflate_of(data@) is None,
{
    match inflate_raw(data) {
        Some(v) => Ok(v),
        None => Err(DecompressError),
    }
}

} // verus!
