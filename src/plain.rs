use vstd::prelude::*;

verus! {

/// A type of plain data: every pattern of `size_of::<Self>()` bytes is the
/// representation of exactly one value, and the type holds no pointer,
/// reference, `bool`, `char` or enum.
///
/// An impl asserts this of its type, and composes it from its fields: a
/// struct is plain when each of its fields is, read and written one after
/// another with no padding between them. The impls in this crate are
/// verified; an impl written elsewhere is trusted to meet the contracts
/// below, and nothing checks that trust.
///
/// The integer impls of this crate lay a value out least significant byte
/// first, whatever the target's own byte order.
pub trait Plain: Sized {
    /// The bytes of the value's representation, as many as the type
    /// occupies. Every impl of this crate states them. An impl written
    /// outside verification keeps the default, of which nothing is known
    /// beyond what `read_exact` and `write_bytes` promise.
    open spec fn repr(&self) -> Seq<u8> {
        Seq::empty()
    }

    /// The value whose representation is `bytes`.
    fn read_exact(bytes: &[u8]) -> (r: Self)
        requires
            bytes@.len() == vstd::layout::size_of::<Self>(),
        ensures
            r.repr() == bytes@,
    ;

    /// The bytes of the value's representation.
    fn write_bytes(&self) -> (r: Vec<u8>)
        ensures
            r@ == self.repr(),
            r@.len() == vstd::layout::size_of::<Self>(),
    ;
}

impl Plain for u8 {
    open spec fn repr(&self) -> Seq<u8> {
        seq![*self]
    }

    fn read_exact(bytes: &[u8]) -> (r: u8) {
        let r = bytes[0];
        assert(bytes@ =~= seq![r]);
        r
    }

    fn write_bytes(&self) -> (r: Vec<u8>) {
        let r = vec![*self];
        assert(r@ =~= seq![*self]);
        r
    }
}

impl Plain for u16 {
    open spec fn repr(&self) -> Seq<u8> {
        vstd::bytes::spec_u16_to_le_bytes(*self)
    }

    fn read_exact(bytes: &[u8]) -> (r: u16) {
        proof {
            vstd::bytes::lemma_auto_spec_u16_to_from_le_bytes();
        }
        vstd::bytes::u16_from_le_bytes(bytes)
    }

    fn write_bytes(&self) -> (r: Vec<u8>) {
        vstd::bytes::u16_to_le_bytes(*self)
    }
}

impl Plain for u32 {
    open spec fn repr(&self) -> Seq<u8> {
        vstd::bytes::spec_u32_to_le_bytes(*self)
    }

    fn read_exact(bytes: &[u8]) -> (r: u32) {
        proof {
            vstd::bytes::lemma_auto_spec_u32_to_from_le_bytes();
        }
        vstd::bytes::u32_from_le_bytes(bytes)
    }

    fn write_bytes(&self) -> (r: Vec<u8>) {
        vstd::bytes::u32_to_le_bytes(*self)
    }
}

impl Plain for u64 {
    open spec fn repr(&self) -> Seq<u8> {
        vstd::bytes::spec_u64_to_le_bytes(*self)
    }

    fn read_exact(bytes: &[u8]) -> (r: u64) {
        proof {
            vstd::bytes::lemma_auto_spec_u64_to_from_le_bytes();
        }
        vstd::bytes::u64_from_le_bytes(bytes)
    }

    fn write_bytes(&self) -> (r: Vec<u8>) {
        vstd::bytes::u64_to_le_bytes(*self)
    }
}

impl Plain for i8 {
    open spec fn repr(&self) -> Seq<u8> {
        seq![*self as u8]
    }

    fn read_exact(bytes: &[u8]) -> (r: i8) {
        let bits = bytes[0];
        assert(bits as i8 as u8 == bits) by (bit_vector);
        assert(bytes@ =~= seq![bits]);
        bits as i8
    }

    fn write_bytes(&self) -> (r: Vec<u8>) {
        let r = vec![*self as u8];
        assert(r@ =~= seq![*self as u8]);
        r
    }
}

impl Plain for i16 {
    open spec fn repr(&self) -> Seq<u8> {
        vstd::bytes::spec_u16_to_le_bytes(*self as u16)
    }

    fn read_exact(bytes: &[u8]) -> (r: i16) {
        proof {
            vstd::bytes::lemma_auto_spec_u16_to_from_le_bytes();
        }
        let bits = vstd::bytes::u16_from_le_bytes(bytes);
        assert(bits as i16 as u16 == bits) by (bit_vector);
        bits as i16
    }

    fn write_bytes(&self) -> (r: Vec<u8>) {
        vstd::bytes::u16_to_le_bytes(*self as u16)
    }
}

impl Plain for i32 {
    open spec fn repr(&self) -> Seq<u8> {
        vstd::bytes::spec_u32_to_le_bytes(*self as u32)
    }

    fn read_exact(bytes: &[u8]) -> (r: i32) {
        proof {
            vstd::bytes::lemma_auto_spec_u32_to_from_le_bytes();
        }
        let bits = vstd::bytes::u32_from_le_bytes(bytes);
        assert(bits as i32 as u32 == bits) by (bit_vector);
        bits as i32
    }

    fn write_bytes(&self) -> (r: Vec<u8>) {
        vstd::bytes::u32_to_le_bytes(*self as u32)
    }
}

impl Plain for i64 {
    open spec fn repr(&self) -> Seq<u8> {
        vstd::bytes::spec_u64_to_le_bytes(*self as u64)
    }

    fn read_exact(bytes: &[u8]) -> (r: i64) {
        proof {
            vstd::bytes::lemma_auto_spec_u64_to_from_le_bytes();
        }
        let bits = vstd::bytes::u64_from_le_bytes(bytes);
        assert(bits as i64 as u64 == bits) by (bit_vector);
        bits as i64
    }

    fn write_bytes(&self) -> (r: Vec<u8>) {
        vstd::bytes::u64_to_le_bytes(*self as u64)
    }
}

impl Plain for usize {
    open spec fn repr(&self) -> Seq<u8> {
        if vstd::layout::size_of::<usize>() == 8 {
            vstd::bytes::spec_u64_to_le_bytes(*self as u64)
        } else {
            vstd::bytes::spec_u32_to_le_bytes(*self as u32)
        }
    }

    fn read_exact(bytes: &[u8]) -> (r: usize) {
        proof {
            broadcast use vstd::layout::layout_of_primitives;
            vstd::bytes::lemma_auto_spec_u64_to_from_le_bytes();
            vstd::bytes::lemma_auto_spec_u32_to_from_le_bytes();
        }
        if core::mem::size_of::<usize>() == 8 {
            let bits = vstd::bytes::u64_from_le_bytes(bytes);
            assert(bits as usize as u64 == bits) by (bit_vector)
                requires
                    usize::BITS == 64,
            ;
            bits as usize
        } else {
            let bits = vstd::bytes::u32_from_le_bytes(bytes);
            assert(bits as usize as u32 == bits) by (bit_vector)
                requires
                    usize::BITS == 32,
            ;
            bits as usize
        }
    }

    fn write_bytes(&self) -> (r: Vec<u8>) {
        proof {
            broadcast use vstd::layout::layout_of_primitives;
        }
        if core::mem::size_of::<usize>() == 8 {
            vstd::bytes::u64_to_le_bytes(*self as u64)
        } else {
            vstd::bytes::u32_to_le_bytes(*self as u32)
        }
    }
}

impl Plain for isize {
    open spec fn repr(&self) -> Seq<u8> {
        if vstd::layout::size_of::<isize>() == 8 {
            vstd::bytes::spec_u64_to_le_bytes(*self as u64)
        } else {
            vstd::bytes::spec_u32_to_le_bytes(*self as u32)
        }
    }

    fn read_exact(bytes: &[u8]) -> (r: isize) {
        proof {
            broadcast use vstd::layout::layout_of_primitives;
            vstd::bytes::lemma_auto_spec_u64_to_from_le_bytes();
            vstd::bytes::lemma_auto_spec_u32_to_from_le_bytes();
        }
        if core::mem::size_of::<isize>() == 8 {
            let bits = vstd::bytes::u64_from_le_bytes(bytes);
            assert(bits as isize as u64 == bits) by (bit_vector)
                requires
                    isize::BITS == 64,
            ;
            bits as isize
        } else {
            let bits = vstd::bytes::u32_from_le_bytes(bytes);
            assert(bits as isize as u32 == bits) by (bit_vector)
                requires
                    isize::BITS == 32,
            ;
            bits as isize
        }
    }

    fn write_bytes(&self) -> (r: Vec<u8>) {
        proof {
            broadcast use vstd::layout::layout_of_primitives;
        }
        if core::mem::size_of::<isize>() == 8 {
            vstd::bytes::u64_to_le_bytes(*self as u64)
        } else {
            vstd::bytes::u32_to_le_bytes(*self as u32)
        }
    }
}

} // verus!
