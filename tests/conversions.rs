use plain::methods::Methods;
use plain::{from_bytes, slice_from_bytes, Error, Plain};
use std::mem;

#[derive(Debug, Copy, Eq, Clone, PartialEq)]
struct Dummy1 {
    field1: u64,
    field2: u32,
    field3: u16,
    field4: u8,
    field5: u8,
}

// Sixteen bytes with no padding: every byte pattern is a value.
impl Plain for Dummy1 {
    fn read_exact(bytes: &[u8]) -> Self {
        Dummy1 {
            field1: u64::read_exact(&bytes[0..8]),
            field2: u32::read_exact(&bytes[8..12]),
            field3: u16::read_exact(&bytes[12..14]),
            field4: u8::read_exact(&bytes[14..15]),
            field5: u8::read_exact(&bytes[15..16]),
        }
    }

    fn write_bytes(&self) -> Vec<u8> {
        let mut out = self.field1.write_bytes();
        out.extend(self.field2.write_bytes());
        out.extend(self.field3.write_bytes());
        out.extend(self.field4.write_bytes());
        out.extend(self.field5.write_bytes());
        out
    }
}

#[derive(Debug, Copy, Eq, Clone, PartialEq)]
struct Dummy2 {
    field1: u8,
    field2: u8,
    field3: u16,
    field4: u32,
    field5: u64,
}

// Sixteen bytes with no padding: every byte pattern is a value.
impl Plain for Dummy2 {
    fn read_exact(bytes: &[u8]) -> Self {
        Dummy2 {
            field1: u8::read_exact(&bytes[0..1]),
            field2: u8::read_exact(&bytes[1..2]),
            field3: u16::read_exact(&bytes[2..4]),
            field4: u32::read_exact(&bytes[4..8]),
            field5: u64::read_exact(&bytes[8..16]),
        }
    }

    fn write_bytes(&self) -> Vec<u8> {
        let mut out = self.field1.write_bytes();
        out.extend(self.field2.write_bytes());
        out.extend(self.field3.write_bytes());
        out.extend(self.field4.write_bytes());
        out.extend(self.field5.write_bytes());
        out
    }
}

#[test]
fn tests_one_too_short() {
    let b = vec![0u8; mem::size_of::<Dummy1>() - 1];

    let r = Dummy1::from_bytes(&b);
    assert!(r == Err(Error::TooShort));
}

#[test]
fn tests_well_aligned() {
    let b = vec![0u8; mem::size_of::<Dummy1>() + 1];

    // No failure.
    Dummy1::from_bytes(&b).unwrap();
}

#[test]
fn tests_unaligned() {
    let b = vec![0u8; mem::size_of::<Dummy1>() + 1];
    let b = &b[1..];

    let r = Dummy1::from_bytes(&b);
    assert!(r == Err(Error::BadAlignment));
}

#[test]
fn tests_basic_function() {
    let t1 = Dummy1 {
        field1: 0xaaaaaaaaaaaaaaaau64,
        field2: 0xbbbbbbbbu32,
        field3: 0xccccu16,
        field4: 0xddu8,
        field5: 0xeeu8,
    };

    let r1: Dummy2 = from_bytes(&t1.as_bytes()).unwrap();

    assert!(r1.field1 == 0xaau8);
    assert!(r1.field2 == 0xaau8);
    assert!(r1.field3 == 0xaaaau16);
    assert!(r1.field4 == 0xaaaaaaaau32);
    assert!(r1.field5 == 0xbbbbbbbbccccddeeu64 || r1.field5 == 0xeeddccccbbbbbbbbu64);

    let r2 = r1.as_bytes();
    assert!(r2.len() == mem::size_of::<Dummy1>());
    assert!(r2[5] == 0xaa);

    // The bytes read as bytes are the same bytes.
    let r3: Vec<u8> = slice_from_bytes::<u8>(&r2).unwrap();

    let r4 = Dummy1::from_bytes(&r3).unwrap();

    let r5 = from_bytes::<Dummy2>(&r4.as_bytes()).unwrap();

    let r6 = slice_from_bytes::<Dummy1>(&r5.as_bytes()).unwrap();

    assert!(r6.len() == 1);
    assert!(t1 == r6[0]);
}
