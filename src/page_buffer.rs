//! Page-aligned host memory for guest allocations, from the `aligned-vec`
//! crate: the native mapping call needs host memory aligned to a page.
//!
//! Everything stated here about that crate is trusted, not proved.
use vstd::prelude::*;

use aligned_vec::{AVec, ConstAlign};

use crate::virtual_machine::{zeros, PAGE_SIZE};

verus! {

/// A byte buffer whose start is aligned to the page size.
///
/// Verus does not take a declaration of `AVec`, whose bound names a trait of
/// that crate, so the vector is held in this opaque struct.
#[verifier::external_body]
#[derive(Debug)]
pub struct PageBuffer {
    bytes: AVec<u8, ConstAlign<PAGE_SIZE>>,
}

/// The bytes that a page buffer holds, in order.
pub uninterp spec fn page_buffer_bytes(b: PageBuffer) -> Seq<u8>;

/// Relies on `AVec::from_iter`: the vector holds the iterator's items in
/// order, here `len` zero bytes. The exact size hint makes it allocate once;
/// it panics only when that allocation exceeds `isize::MAX` bytes less the
/// alignment, which `requires` rules out.
#[verifier::external_body]
pub(crate) fn page_buffer_zeroed(len: usize) -> (r: PageBuffer)
    requires
        len + PAGE_SIZE - 1 <= isize::MAX,
    ensures
        page_buffer_bytes(r) == zeros(len as int),
{
    PageBuffer { bytes: AVec::from_iter(PAGE_SIZE, core::iter::repeat(0u8).take(len)) }
}

/// Relies on `AVec::as_slice`: a view of the bytes the vector holds.
#[verifier::external_body]
pub(crate) fn page_buffer_as_slice(b: &PageBuffer) -> (r: &[u8])
    ensures
        r@ == page_buffer_bytes(*b),
{
    b.bytes.as_slice()
}

/// Relies on `AVec::as_mut_slice`: a mutable view of the bytes the vector
/// holds; what is written through it is what the vector then holds.
#[verifier::external_body]
pub(crate) fn page_buffer_as_mut_slice(b: &mut PageBuffer) -> (r: &mut [u8])
    ensures
        r@ == page_buffer_bytes(*old(b)),
        page_buffer_bytes(*final(b)) == final(r)@,
{
    b.bytes.as_mut_slice()
}

} // verus!
