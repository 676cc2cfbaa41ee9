//! The rolling line buffer: what the library relies on of `bytes::BytesMut`.

use vstd::prelude::*;

verus! {

/// `bytes::BytesMut`, a growable run of bytes whose front can be split off.
#[verifier::external_type_specification]
#[verifier::external_body]
pub struct ExBytesMut(bytes::BytesMut);

/// The bytes that a `BytesMut` holds, first to last.
pub uninterp spec fn buffered(buf: bytes::BytesMut) -> Seq<u8>;

/// `BytesMut::new` makes a buffer that holds nothing.
pub assume_specification[ bytes::BytesMut::new ]() -> (r: bytes::BytesMut)
    ensures
        buffered(r) == Seq::<u8>::empty(),
;

/// `BytesMut::extend_from_slice` appends the slice. It panics where the new length is no
/// possible capacity.
pub assume_specification[ bytes::BytesMut::extend_from_slice ](
    buf: &mut bytes::BytesMut,
    extend: &[u8],
)
    requires
        buffered(*old(buf)).len() + extend@.len() <= isize::MAX,
    ensures
        buffered(*final(buf)) == buffered(*old(buf)) + extend@,
;

/// `BytesMut::split_to` takes the first `at` bytes out of the buffer and returns them. It panics
/// where there are fewer.
pub assume_specification[ bytes::BytesMut::split_to ](
    buf: &mut bytes::BytesMut,
    at: usize,
) -> (r: bytes::BytesMut)
    requires
        at <= buffered(*old(buf)).len(),
    ensures
        buffered(r) == buffered(*old(buf)).take(at as int),
        buffered(*final(buf)) == buffered(*old(buf)).skip(at as int),
;

/// A `BytesMut` dereferences to the bytes that it holds.
#[verifier::external_body]
pub(crate) fn bytes_of(buf: &bytes::BytesMut) -> (r: &[u8])
    ensures
        r@ == buffered(*buf),
{
    &buf[..]
}

} // verus!
