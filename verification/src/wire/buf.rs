//! Byte buffers of the `bytes` crate, as verified code sees them.

use bytes::Bytes;
use vstd::prelude::*;

verus! {

/// The buffer type `bytes::Bytes`. Verified code sees nothing inside a
/// buffer but what `bytes_content` says of it.
#[verifier::external_type_specification]
#[verifier::external_body]
pub struct ExBytes(bytes::Bytes);

/// The bytes that a buffer holds, first to last.
pub uninterp spec fn bytes_content(b: Bytes) -> Seq<u8>;

/// `Bytes::new` returns a buffer that holds no byte.
pub assume_specification[ Bytes::new ]() -> (b: Bytes)
    ensures
        bytes_content(b) =~= Seq::empty(),
;

/// `Bytes::len` returns the number of bytes held.
pub assume_specification[ Bytes::len ](b: &Bytes) -> (n: usize)
    ensures
        n == bytes_content(*b).len(),
;

/// `Bytes::is_empty` tells whether no byte is held.
pub assume_specification[ Bytes::is_empty ](b: &Bytes) -> (e: bool)
    ensures
        e == (bytes_content(*b).len() == 0),
;

/// `Bytes::split_to` returns the first `at` bytes and leaves the rest in the
/// buffer. It panics when `at` is past the end, which `requires` rules out.
pub assume_specification[ Bytes::split_to ](b: &mut Bytes, at: usize) -> (front: Bytes)
    requires
        at <= bytes_content(*old(b)).len(),
    ensures
        bytes_content(front) == bytes_content(*old(b)).take(at as int),
        bytes_content(*final(b)) == bytes_content(*old(b)).skip(at as int),
;

} // verus!
