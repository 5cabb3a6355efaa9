//! The MD5 digest, computed by the `md5` crate.

use vstd::prelude::*;

verus! {

/// The MD5 digest of a byte string: sixteen bytes that depend on `data`
/// alone. The algorithm is the `md5` crate's and is not restated here.
pub uninterp spec fn md5_digest(data: Seq<u8>) -> Seq<u8>;

/// Calls `md5::compute` on `data` and hands out the sixteen bytes of the
/// digest it returns. Taken on trust: those bytes are a function of the
/// bytes of `data`, named `md5_digest`.
#[verifier::external_body]
pub(crate) fn md5_compute(data: &[u8]) -> (digest: [u8; 16])
    ensures
        digest@ == md5_digest(data@),
{
    md5::compute(data).0
}

} // verus!
