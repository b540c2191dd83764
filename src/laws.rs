use vstd::prelude::*;

use crate::plain::Plain;
use crate::{align, element_bytes, reads_elements, size, slice_outcome, value_outcome, Error};

verus! {

/// A buffer exactly as long as a `T`, whose start is aligned for `T`, reads
/// as the value whose bytes are the whole buffer.
pub proof fn lemma_exact_buffer_reads_back<T: Plain>(b: Seq<u8>, addr: int, r: Result<T, Error>)
    requires
        b.len() == size::<T>(),
        addr % align::<T>() == 0,
        value_outcome::<T>(b, addr, r),
    ensures
        r is Ok,
        r->Ok_0.repr() == b,
{
    assert(b.take(size::<T>()) =~= b);
}

/// A buffer shorter than a `T` fails with `TooShort`, whatever its address.
pub proof fn lemma_short_buffer_too_short<T: Plain>(b: Seq<u8>, addr: int, r: Result<T, Error>)
    requires
        b.len() < size::<T>(),
        value_outcome::<T>(b, addr, r),
    ensures
        r is Err,
        r->Err_0 == Error::TooShort,
{
}

/// A buffer long enough for a `T` whose start is not aligned for `T` fails
/// with `BadAlignment`.
pub proof fn lemma_misaligned_buffer_rejected<T: Plain>(
    b: Seq<u8>,
    addr: int,
    r: Result<T, Error>,
)
    requires
        b.len() >= size::<T>(),
        addr % align::<T>() != 0,
        value_outcome::<T>(b, addr, r),
    ensures
        r is Err,
        r->Err_0 == Error::BadAlignment,
{
}

/// Reading back the bytes of a value, from an address aligned for its type,
/// gives a value with the same bytes.
pub proof fn lemma_round_trip<T: Plain>(v: T, b: Seq<u8>, addr: int, r: Result<T, Error>)
    requires
        b == v.repr(),
        b.len() == size::<T>(),
        addr % align::<T>() == 0,
        value_outcome::<T>(b, addr, r),
    ensures
        r is Ok,
        r->Ok_0.repr() == v.repr(),
{
    lemma_exact_buffer_reads_back::<T>(b, addr, r);
}

/// Reading as many values as fit, from an aligned buffer of `k` whole values
/// and `rem` more bytes, gives exactly `k` values, read from the first `k`
/// values' bytes alone.
pub proof fn lemma_whole_values_only<T: Plain>(
    b: Seq<u8>,
    addr: int,
    k: int,
    rem: int,
    r: Result<Vec<T>, Error>,
)
    requires
        size::<T>() > 0,
        0 <= k,
        0 <= rem < size::<T>(),
        b.len() == k * size::<T>() + rem,
        addr % align::<T>() == 0,
        slice_outcome::<T>(b, addr, b.len() as int / size::<T>(), r),
    ensures
        r is Ok,
        r->Ok_0@.len() == k,
        reads_elements::<T>(b.take(k * size::<T>()), r->Ok_0@),
{
    let s = size::<T>();
    vstd::arithmetic::div_mod::lemma_fundamental_div_mod_converse(b.len() as int, s, k, rem);
    let vals = r->Ok_0@;
    assert forall|i: int| 0 <= i < vals.len() implies #[trigger] vals[i].repr() == element_bytes::<
        T,
    >(b.take(k * s), i) by {
        assert((i + 1) * s <= k * s) by (nonlinear_arith)
            requires
                i < k,
                s > 0,
        ;
        assert(0 <= i * s) by (nonlinear_arith)
            requires
                0 <= i,
                s > 0,
        ;
        assert((i + 1) * s == i * s + s) by (nonlinear_arith);
        assert(element_bytes::<T>(b.take(k * s), i) =~= element_bytes::<T>(b, i));
    }
}

/// Reading `count` values from an aligned buffer succeeds exactly when the
/// buffer holds `count` values' bytes, and then gives exactly `count` values.
pub proof fn lemma_counted_read_succeeds_iff<T: Plain>(
    b: Seq<u8>,
    addr: int,
    count: int,
    r: Result<Vec<T>, Error>,
)
    requires
        addr % align::<T>() == 0,
        slice_outcome::<T>(b, addr, count, r),
    ensures
        r is Ok <==> b.len() >= count * size::<T>(),
        r is Ok ==> r->Ok_0@.len() == count,
        r is Err ==> r->Err_0 == Error::TooShort,
{
}

/// Reading back the bytes of a sequence of values as that many values, from
/// an address aligned for their type, gives values with the same bytes, in
/// the same order.
pub proof fn lemma_slice_round_trip<T: Plain>(
    vals: Seq<T>,
    b: Seq<u8>,
    addr: int,
    r: Result<Vec<T>, Error>,
)
    requires
        b.len() == vals.len() * size::<T>(),
        reads_elements::<T>(b, vals),
        addr % align::<T>() == 0,
        slice_outcome::<T>(b, addr, vals.len() as int, r),
    ensures
        r is Ok,
        r->Ok_0@.len() == vals.len(),
        forall|i: int| 0 <= i < vals.len() ==> #[trigger] r->Ok_0@[i].repr() == vals[i].repr(),
{
    let out = r->Ok_0@;
    assert forall|i: int| 0 <= i < vals.len() implies #[trigger] out[i].repr()
        == vals[i].repr() by {
        assert(out[i].repr() == element_bytes::<T>(b, i));
        assert(vals[i].repr() == element_bytes::<T>(b, i));
    }
}

} // verus!
