//! Byte strings: comparing them and borrowing a range out of one.

use crate::error::VerificationError;
use vstd::prelude::*;

verus! {

/// True when the `size` bytes from `offset` on lie within `len` bytes. The
/// end is exclusive: a range that ends exactly at `len` lies within.
pub open spec fn spec_in_bounds(offset: int, size: int, len: int) -> bool {
    offset + size <= len
}

/// Compares two byte strings byte for byte.
pub fn bytes_equal(a: &[u8], b: &[u8]) -> (r: bool)
    ensures
        r == (a@ == b@),
{
    if a.len() != b.len() {
        return false;
    }
    let mut i: usize = 0;
    while i < a.len()
        invariant
            i <= a@.len(),
            a@.len() == b@.len(),
            a@.subrange(0, i as int) == b@.subrange(0, i as int),
        decreases a@.len() - i,
    {
        if a[i] != b[i] {
            return false;
        }
        assert(a@.subrange(0, i + 1) =~= a@.subrange(0, i as int).push(a@[i as int]));
        assert(b@.subrange(0, i + 1) =~= b@.subrange(0, i as int).push(b@[i as int]));
        i += 1;
    }
    assert(a@ =~= a@.subrange(0, i as int));
    assert(b@ =~= b@.subrange(0, i as int));
    true
}

/// Borrows the `size` bytes of `data` from `offset` on. The end is computed
/// with saturating arithmetic and is exclusive; a range that ends beyond the
/// data is refused with [`VerificationError::OffsetOutOfBounds`].
pub fn slice_at<'a>(data: &'a [u8], offset: u16, size: usize) -> (r: Result<
    &'a [u8],
    VerificationError,
>)
    ensures
        spec_in_bounds(offset as int, size as int, data@.len() as int) <==> r is Ok,
        r is Ok ==> r->Ok_0@ == data@.subrange(offset as int, offset + size),
        r is Err ==> r->Err_0 == VerificationError::OffsetOutOfBounds,
{
    let start: usize = offset as usize;
    let end: usize = start.saturating_add(size);
    if end > data.len() || end - start != size {
        return Err(VerificationError::OffsetOutOfBounds);
    }
    Ok(&data[start..end])
}

} // verus!
