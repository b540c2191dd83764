use vstd::prelude::*;

use crate::plain::Plain;
use crate::{reads_elements, size, slice_outcome, value_outcome, Error};

pub use crate::{as_bytes, from_bytes, from_mut_bytes};

verus! {

/// The conversions of this crate as methods of the types they read and
/// write. Every [`Plain`] type has them.
pub trait Methods: Plain {
    /// Same as [`crate::from_bytes`], as a method of the type.
    fn from_bytes(bytes: &[u8]) -> (r: Result<Self, Error>)
        ensures
            exists|addr: usize| #[trigger] value_outcome::<Self>(bytes@, addr as int, r),
            bytes@.len() < size::<Self>() ==> r == Err::<Self, Error>(Error::TooShort),
            r is Ok ==> r->Ok_0.repr() == bytes@.take(size::<Self>()),
    {
        crate::from_bytes(bytes)
    }

    /// Same as [`crate::slice_from_bytes`], as a method of the type.
    fn slice_from_bytes(bytes: &[u8]) -> (r: Result<Vec<Self>, Error>)
        requires
            size::<Self>() > 0,
        ensures
            exists|addr: usize|
                #[trigger] slice_outcome::<Self>(
                    bytes@,
                    addr as int,
                    bytes@.len() as int / size::<Self>(),
                    r,
                ),
            r is Ok ==> r->Ok_0@.len() == bytes@.len() as int / size::<Self>()
                && reads_elements::<Self>(bytes@, r->Ok_0@),
            r is Err ==> r->Err_0 == Error::BadAlignment,
    {
        crate::slice_from_bytes(bytes)
    }

    /// Same as [`crate::slice_from_bytes_len`], as a method of the type.
    fn slice_from_bytes_len(bytes: &[u8], len: usize) -> (r: Result<Vec<Self>, Error>)
        ensures
            exists|addr: usize| #[trigger] slice_outcome::<Self>(bytes@, addr as int, len as int, r),
            r is Ok ==> r->Ok_0@.len() == len && reads_elements::<Self>(bytes@, r->Ok_0@),
    {
        crate::slice_from_bytes_len(bytes, len)
    }

    /// Same as [`crate::from_mut_bytes`], as a method of the type.
    fn from_mut_bytes(bytes: &mut [u8]) -> (r: Result<Self, Error>)
        ensures
            final(bytes)@ == old(bytes)@,
            exists|addr: usize| #[trigger] value_outcome::<Self>(old(bytes)@, addr as int, r),
            old(bytes)@.len() < size::<Self>() ==> r == Err::<Self, Error>(Error::TooShort),
            r is Ok ==> r->Ok_0.repr() == old(bytes)@.take(size::<Self>()),
    {
        crate::from_mut_bytes(bytes)
    }

    /// Same as [`crate::slice_from_mut_bytes`], as a method of the type.
    fn slice_from_mut_bytes(bytes: &mut [u8]) -> (r: Result<Vec<Self>, Error>)
        requires
            size::<Self>() > 0,
        ensures
            final(bytes)@ == old(bytes)@,
            exists|addr: usize|
                #[trigger] slice_outcome::<Self>(
                    old(bytes)@,
                    addr as int,
                    old(bytes)@.len() as int / size::<Self>(),
                    r,
                ),
            r is Ok ==> r->Ok_0@.len() == old(bytes)@.len() as int / size::<Self>()
                && reads_elements::<Self>(old(bytes)@, r->Ok_0@),
            r is Err ==> r->Err_0 == Error::BadAlignment,
    {
        crate::slice_from_mut_bytes(bytes)
    }

    /// Same as [`crate::slice_from_mut_bytes_len`], as a method of the type.
    fn slice_from_mut_bytes_len(bytes: &mut [u8], len: usize) -> (r: Result<Vec<Self>, Error>)
        ensures
            final(bytes)@ == old(bytes)@,
            exists|addr: usize|
                #[trigger] slice_outcome::<Self>(old(bytes)@, addr as int, len as int, r),
            r is Ok ==> r->Ok_0@.len() == len && reads_elements::<Self>(old(bytes)@, r->Ok_0@),
    {
        crate::slice_from_mut_bytes_len(bytes, len)
    }

    /// Same as [`crate::copy_from_bytes`], as a method of the type.
    fn copy_from_bytes(&mut self, bytes: &[u8]) -> (r: Result<(), Error>)
        ensures
            bytes@.len() < size::<Self>() ==> r == Err::<(), Error>(Error::TooShort) && *final(self)
                == *old(self),
            bytes@.len() >= size::<Self>() ==> r == Ok::<(), Error>(()) && final(self).repr()
                == bytes@.take(size::<Self>()),
    {
        crate::copy_from_bytes(self, bytes)
    }

    /// Same as [`crate::as_bytes`], as a method of the type.
    fn as_bytes(&self) -> (r: Vec<u8>)
        ensures
            r@ == self.repr(),
            r@.len() == size::<Self>(),
    {
        crate::as_bytes(self)
    }
}

impl<S: Plain> Methods for S {}

} // verus!
