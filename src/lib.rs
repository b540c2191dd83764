//! Checked reading of byte buffers as values of plain data types.
//!
//! A type opts in through the [`Plain`] trait, which ties each value to the
//! bytes of its representation. The conversions check a buffer's length and
//! the alignment of its start address against the target type, and report a
//! classified [`Error`] instead of reading when either check fails. A read
//! value is a copy of the buffer's bytes: the buffer is never changed.
//!
//! Each conversion that looks at where its buffer lies has a form ending in
//! `_at` that takes that address as an argument. Its contract states the
//! outcome exactly; the form without the suffix reads the buffer's own
//! address and hands it on.
use vstd::prelude::*;

mod laws;
pub mod methods;
mod plain;

pub use laws::{
    lemma_counted_read_succeeds_iff, lemma_exact_buffer_reads_back, lemma_misaligned_buffer_rejected,
    lemma_round_trip, lemma_short_buffer_too_short, lemma_slice_round_trip, lemma_whole_values_only,
};
pub use plain::Plain;

verus! {

/// Why a byte buffer cannot be read as the requested value or values.
#[derive(Debug, Clone, Copy, PartialEq, Eq, Structural)]
pub enum Error {
    /// The buffer has fewer bytes than the value or values need.
    TooShort,
    /// The buffer does not start at a multiple of the type's alignment.
    BadAlignment,
}

/// Number of bytes that a value of `T` occupies.
pub open spec fn size<T>() -> int {
    vstd::layout::size_of::<T>() as int
}

/// Alignment, in bytes, that a value of `T` requires of its address.
pub open spec fn align<T>() -> int {
    vstd::layout::align_of::<T>() as int
}

/// Outcome of checking `len` bytes that start at `addr` for one value of `T`.
/// The length is checked first, so a short buffer is reported as such
/// whatever its address.
pub open spec fn value_check<T>(len: int, addr: int) -> Result<(), Error> {
    if len < size::<T>() {
        Err(Error::TooShort)
    } else if addr % align::<T>() != 0 {
        Err(Error::BadAlignment)
    } else {
        Ok(())
    }
}

/// Outcome of checking `len` bytes that start at `addr` for `count` values of
/// `T` laid out one after another. The alignment is checked first.
pub open spec fn slice_check<T>(len: int, addr: int, count: int) -> Result<(), Error> {
    if addr % align::<T>() != 0 {
        Err(Error::BadAlignment)
    } else if len < count * size::<T>() {
        Err(Error::TooShort)
    } else {
        Ok(())
    }
}

/// The bytes of element `i` among values of `T` stored back to back from the
/// start of `b`.
pub open spec fn element_bytes<T>(b: Seq<u8>, i: int) -> Seq<u8> {
    b.subrange(i * size::<T>(), (i + 1) * size::<T>())
}

/// Each of `vals` is the value whose bytes are the matching element of `b`.
pub open spec fn reads_elements<T: Plain>(b: Seq<u8>, vals: Seq<T>) -> bool {
    forall|i: int| 0 <= i < vals.len() ==> #[trigger] vals[i].repr() == element_bytes::<T>(b, i)
}

/// What reading one `T` from `b`, which starts at `addr`, gives: the error of
/// the check, or a value whose bytes are the first `size::<T>()` of `b`.
pub open spec fn value_outcome<T: Plain>(b: Seq<u8>, addr: int, r: Result<T, Error>) -> bool {
    match value_check::<T>(b.len() as int, addr) {
        Ok(_) => r is Ok && r->Ok_0.repr() == b.take(size::<T>()),
        Err(e) => r is Err && r->Err_0 == e,
    }
}

/// What reading `count` values of `T` from `b`, which starts at `addr`,
/// gives: the error of the check, or exactly `count` values read back to back.
pub open spec fn slice_outcome<T: Plain>(
    b: Seq<u8>,
    addr: int,
    count: int,
    r: Result<Vec<T>, Error>,
) -> bool {
    match slice_check::<T>(b.len() as int, addr, count) {
        Ok(_) => r is Ok && r->Ok_0@.len() == count && reads_elements::<T>(b, r->Ok_0@),
        Err(e) => r is Err && r->Err_0 == e,
    }
}

/// Relies on `slice::as_ptr`: the address at which the slice's first byte
/// lies. Nothing is stated of it: it depends on where the buffer was placed.
#[verifier::external_body]
fn address_of(bytes: &[u8]) -> usize {
    bytes.as_ptr() as usize
}

fn check_instance_size<T>(bytes: &[u8]) -> (r: Result<(), Error>)
    ensures
        r == (if bytes@.len() < size::<T>() {
            Err::<(), Error>(Error::TooShort)
        } else {
            Ok(())
        }),
{
    if bytes.len() < core::mem::size_of::<T>() {
        Err(Error::TooShort)
    } else {
        Ok(())
    }
}

fn check_slice_size<T>(bytes: &[u8], len: usize) -> (r: Result<(), Error>)
    ensures
        r == (if bytes@.len() < len * size::<T>() {
            Err::<(), Error>(Error::TooShort)
        } else {
            Ok(())
        }),
{
    let n = bytes.len();
    let elem = core::mem::size_of::<T>();
    match len.checked_mul(elem) {
        Some(need) => {
            if n < need {
                Err(Error::TooShort)
            } else {
                Ok(())
            }
        },
        None => {
            Err(Error::TooShort)
        },
    }
}

fn check_alignment<T>(addr: usize) -> (r: Result<(), Error>)
    ensures
        r == (if addr as int % align::<T>() != 0 {
            Err::<(), Error>(Error::BadAlignment)
        } else {
            Ok(())
        }),
{
    vstd::layout::layout_for_type_is_valid::<T>();
    if addr % core::mem::align_of::<T>() != 0 {
        Err(Error::BadAlignment)
    } else {
        Ok(())
    }
}

/// Reads one `T` from the start of `bytes`, taking `addr` as the address at
/// which `bytes` starts. Bytes past the value are ignored.
pub fn from_bytes_at<T: Plain>(bytes: &[u8], addr: usize) -> (r: Result<T, Error>)
    ensures
        value_outcome::<T>(bytes@, addr as int, r),
{
    match check_instance_size::<T>(bytes) {
        Err(e) => return Err(e),
        Ok(()) => {},
    }
    match check_alignment::<T>(addr) {
        Err(e) => return Err(e),
        Ok(()) => {},
    }
    let head = vstd::slice::slice_subrange(bytes, 0, core::mem::size_of::<T>());
    Ok(T::read_exact(head))
}

/// Reads one `T` from the start of `bytes`. Fails with `TooShort` when
/// `bytes` is shorter than a `T`, and otherwise with `BadAlignment` when
/// `bytes` does not start at an address aligned for `T`.
pub fn from_bytes<T: Plain>(bytes: &[u8]) -> (r: Result<T, Error>)
    ensures
        exists|addr: usize| #[trigger] value_outcome::<T>(bytes@, addr as int, r),
        bytes@.len() < size::<T>() ==> r == Err::<T, Error>(Error::TooShort),
        r is Ok ==> r->Ok_0.repr() == bytes@.take(size::<T>()),
{
    let addr = address_of(bytes);
    from_bytes_at(bytes, addr)
}

/// Reads `len` values of `T` stored back to back from the start of `bytes`,
/// taking `addr` as the address at which `bytes` starts. The alignment is
/// checked before the length; bytes past the last value are ignored.
pub fn slice_from_bytes_len_at<T: Plain>(bytes: &[u8], len: usize, addr: usize) -> (r: Result<
    Vec<T>,
    Error,
>)
    ensures
        slice_outcome::<T>(bytes@, addr as int, len as int, r),
{
    match check_alignment::<T>(addr) {
        Err(e) => return Err(e),
        Ok(()) => {},
    }
    match check_slice_size::<T>(bytes, len) {
        Err(e) => return Err(e),
        Ok(()) => {},
    }
    let n = bytes.len();
    let elem = core::mem::size_of::<T>();
    let mut out: Vec<T> = Vec::new();
    let mut i: usize = 0;
    while i < len
        invariant
            i <= len,
            elem as int == size::<T>(),
            n == bytes@.len(),
            len * elem <= n,
            out@.len() == i,
            forall|j: int| 0 <= j < i ==> #[trigger] out@[j].repr() == element_bytes::<T>(bytes@, j),
        decreases len - i,
    {
        proof {
            assert((i + 1) * elem <= len * elem) by (nonlinear_arith)
                requires
                    i < len,
            ;
            assert((i + 1) * elem == i * elem + elem) by (nonlinear_arith);
        }
        let start = i * elem;
        let piece = vstd::slice::slice_subrange(bytes, start, start + elem);
        let v = T::read_exact(piece);
        out.push(v);
        i = i + 1;
    }
    Ok(out)
}

/// Reads as many values of `T` as fit whole in `bytes`, taking `addr` as the
/// address at which `bytes` starts. Trailing bytes that do not make up one
/// more value are ignored, so only the alignment can fail.
pub fn slice_from_bytes_at<T: Plain>(bytes: &[u8], addr: usize) -> (r: Result<Vec<T>, Error>)
    requires
        size::<T>() > 0,
    ensures
        slice_outcome::<T>(bytes@, addr as int, bytes@.len() as int / size::<T>(), r),
        r is Err ==> r->Err_0 == Error::BadAlignment,
{
    let elem = core::mem::size_of::<T>();
    let count = bytes.len() / elem;
    proof {
        assert(count * elem <= bytes@.len()) by (nonlinear_arith)
            requires
                count == bytes@.len() as int / (elem as int),
                elem > 0,
        ;
    }
    slice_from_bytes_len_at(bytes, count, addr)
}

/// Reads `len` values of `T` stored back to back from the start of `bytes`.
/// Fails with `BadAlignment` when `bytes` does not start at an address
/// aligned for `T`, and otherwise with `TooShort` when `bytes` holds fewer
/// than `len` values.
pub fn slice_from_bytes_len<T: Plain>(bytes: &[u8], len: usize) -> (r: Result<Vec<T>, Error>)
    ensures
        exists|addr: usize| #[trigger] slice_outcome::<T>(bytes@, addr as int, len as int, r),
        r is Ok ==> r->Ok_0@.len() == len && reads_elements::<T>(bytes@, r->Ok_0@),
{
    let addr = address_of(bytes);
    slice_from_bytes_len_at(bytes, len, addr)
}

/// Reads as many values of `T` as fit whole in `bytes`. Fails only with
/// `BadAlignment`, when `bytes` does not start at an address aligned for `T`.
pub fn slice_from_bytes<T: Plain>(bytes: &[u8]) -> (r: Result<Vec<T>, Error>)
    requires
        size::<T>() > 0,
    ensures
        exists|addr: usize|
            #[trigger] slice_outcome::<T>(bytes@, addr as int, bytes@.len() as int / size::<T>(), r),
        r is Ok ==> r->Ok_0@.len() == bytes@.len() as int / size::<T>() && reads_elements::<T>(
            bytes@,
            r->Ok_0@,
        ),
        r is Err ==> r->Err_0 == Error::BadAlignment,
{
    let addr = address_of(bytes);
    slice_from_bytes_at(bytes, addr)
}

/// Same as [`from_bytes`] on a buffer held exclusively. The value is a copy:
/// the buffer is left as it was.
pub fn from_mut_bytes<T: Plain>(bytes: &mut [u8]) -> (r: Result<T, Error>)
    ensures
        final(bytes)@ == old(bytes)@,
        exists|addr: usize| #[trigger] value_outcome::<T>(old(bytes)@, addr as int, r),
        old(bytes)@.len() < size::<T>() ==> r == Err::<T, Error>(Error::TooShort),
        r is Ok ==> r->Ok_0.repr() == old(bytes)@.take(size::<T>()),
{
    from_bytes(bytes)
}

/// Same as [`slice_from_bytes`] on a buffer held exclusively. The values are
/// copies: the buffer is left as it was.
pub fn slice_from_mut_bytes<T: Plain>(bytes: &mut [u8]) -> (r: Result<Vec<T>, Error>)
    requires
        size::<T>() > 0,
    ensures
        final(bytes)@ == old(bytes)@,
        exists|addr: usize|
            #[trigger] slice_outcome::<T>(old(bytes)@, addr as int, old(bytes)@.len() as int / size::<T>(), r),
        r is Ok ==> r->Ok_0@.len() == old(bytes)@.len() as int / size::<T>() && reads_elements::<T>(
            old(bytes)@,
            r->Ok_0@,
        ),
        r is Err ==> r->Err_0 == Error::BadAlignment,
{
    slice_from_bytes(bytes)
}

/// Same as [`slice_from_bytes_len`] on a buffer held exclusively. The values
/// are copies: the buffer is left as it was.
pub fn slice_from_mut_bytes_len<T: Plain>(bytes: &mut [u8], len: usize) -> (r: Result<
    Vec<T>,
    Error,
>)
    ensures
        final(bytes)@ == old(bytes)@,
        exists|addr: usize| #[trigger] slice_outcome::<T>(old(bytes)@, addr as int, len as int, r),
        r is Ok ==> r->Ok_0@.len() == len && reads_elements::<T>(old(bytes)@, r->Ok_0@),
{
    slice_from_bytes_len(bytes, len)
}

/// The bytes of the representation of `s`: as many as a `T` occupies. This
/// cannot fail.
pub fn as_bytes<T: Plain>(s: &T) -> (r: Vec<u8>)
    ensures
        r@ == s.repr(),
        r@.len() == size::<T>(),
{
    s.write_bytes()
}

/// The bytes of the representations of the values of `s`, one after another:
/// `s.len()` times as many as a `T` occupies. This cannot fail.
pub fn slice_as_bytes<T: Plain>(s: &[T]) -> (r: Vec<u8>)
    ensures
        r@.len() == s@.len() * size::<T>(),
        reads_elements::<T>(r@, s@),
{
    let elem = core::mem::size_of::<T>();
    let mut out: Vec<u8> = Vec::new();
    let mut i: usize = 0;
    while i < s.len()
        invariant
            i <= s@.len(),
            elem as int == size::<T>(),
            out@.len() == i * elem,
            forall|j: int| 0 <= j < i ==> #[trigger] s@[j].repr() == element_bytes::<T>(out@, j),
        decreases s@.len() - i,
    {
        let mut piece = s[i].write_bytes();
        let ghost before = out@;
        out.append(&mut piece);
        proof {
            assert((i + 1) * elem == i * elem + elem) by (nonlinear_arith);
            assert forall|j: int| 0 <= j <= i implies #[trigger] s@[j].repr()
                == element_bytes::<T>(out@, j) by {
                assert((j + 1) * elem <= (i + 1) * elem) by (nonlinear_arith)
                    requires
                        j <= i,
                        elem >= 0,
                ;
                assert(0 <= j * elem) by (nonlinear_arith)
                    requires
                        0 <= j,
                        elem >= 0,
                ;
                assert((j + 1) * elem == j * elem + elem) by (nonlinear_arith);
                if j < i {
                    assert((j + 1) * elem <= i * elem) by (nonlinear_arith)
                        requires
                            j < i,
                            elem >= 0,
                    ;
                    assert(element_bytes::<T>(out@, j) =~= element_bytes::<T>(before, j));
                } else {
                    assert(element_bytes::<T>(out@, j) =~= s@[j].repr());
                }
            }
        }
        i = i + 1;
    }
    proof {
        assert(out@.len() == s@.len() * size::<T>());
    }
    out
}

/// Overwrites `into` with the value whose bytes are the first ones of
/// `bytes`. Fails with `TooShort`, leaving `into` as it was, when `bytes` is
/// shorter than a `T`. No alignment is needed: the bytes are copied.
pub fn copy_from_bytes<T: Plain>(into: &mut T, bytes: &[u8]) -> (r: Result<(), Error>)
    ensures
        bytes@.len() < size::<T>() ==> r == Err::<(), Error>(Error::TooShort) && *final(into)
            == *old(into),
        bytes@.len() >= size::<T>() ==> r == Ok::<(), Error>(()) && final(into).repr()
            == bytes@.take(size::<T>()),
{
    match check_instance_size::<T>(bytes) {
        Err(e) => return Err(e),
        Ok(()) => {},
    }
    let head = vstd::slice::slice_subrange(bytes, 0, core::mem::size_of::<T>());
    *into = T::read_exact(head);
    Ok(())
}

} // verus!
