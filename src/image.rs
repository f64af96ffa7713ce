//! Images as one base64-encoded chunk.
use base64::Engine;
use vstd::prelude::*;

use crate::chunk::{Chunk, ChunkView, MetaView, Metadata};

verus! {

/// What the standard base64 alphabet, with padding, makes of a byte string.
pub uninterp spec fn base64_of(b: Seq<u8>) -> Seq<char>;

/// The length of the padded base64 form of `n` bytes.
pub open spec fn base64_len(n: nat) -> nat {
    4 * ((n + 2) / 3)
}

/// Relies on `base64::engine::general_purpose::STANDARD.encode`: standard
/// alphabet, padded to a multiple of four characters; it panics when that
/// length overflows `usize`.
#[verifier::external_body]
fn encode_base64(b: &[u8]) -> (r: String)
    requires
        base64_len(b@.len()) <= usize::MAX,
    ensures
        r@ == base64_of(b@),
        r@.len() == base64_len(b@.len()),
{
    base64::engine::general_purpose::STANDARD.encode(b)
}

/// The single chunk of an image: its bytes in base64.
pub fn image_chunk(bytes: &Vec<u8>) -> (r: Chunk)
    requires
        base64_len(bytes@.len()) <= usize::MAX,
    ensures
        r@ == (ChunkView { content: base64_of(bytes@), meta: MetaView::Image }),
        r.content@.len() == base64_len(bytes@.len()),
{
    let content = encode_base64(bytes.as_slice());
    Chunk { content, metadata: Metadata::Image }
}

/// Whether an image of `len` bytes can be encoded.
pub fn fits_base64(len: usize) -> (r: bool)
    ensures
        r == (base64_len(len as nat) <= usize::MAX),
{
    let q: usize = if len % 3 == 0 {
        len / 3
    } else {
        len / 3 + 1
    };
    let m: usize = usize::MAX / 4;
    proof {
        let n = len as int;
        assert(q == (n + 2) / 3) by (nonlinear_arith)
            requires
                q == (if n % 3 == 0 { n / 3 } else { n / 3 + 1 }),
                n >= 0,
        ;
        assert((q <= m) == (4 * q <= usize::MAX)) by (nonlinear_arith)
            requires
                m == usize::MAX / 4,
        ;
    }
    q <= m
}

} // verus!
