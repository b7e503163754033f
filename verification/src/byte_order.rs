use vstd::prelude::*;

verus! {

/// The order in which the bytes of a multi-byte integer follow each other on the wire.
#[derive(Clone, Copy, Debug, PartialEq, Eq, Structural)]
pub enum ByteOrder {
    /// Least significant byte first.
    Little,
    /// Most significant byte first.
    Big,
}

/// The two bytes of `x` in the given order.
pub open spec fn bytes_u16(x: u16, order: ByteOrder) -> Seq<u8> {
    let low = (x % 256) as u8;
    let high = (x / 256) as u8;
    match order {
        ByteOrder::Little => seq![low, high],
        ByteOrder::Big => seq![high, low],
    }
}

/// The four bytes of `x` in the given order.
pub open spec fn bytes_u32(x: u32, order: ByteOrder) -> Seq<u8> {
    let b0 = (x % 256) as u8;
    let b1 = (x / 0x100 % 256) as u8;
    let b2 = (x / 0x1_0000 % 256) as u8;
    let b3 = (x / 0x100_0000) as u8;
    match order {
        ByteOrder::Little => seq![b0, b1, b2, b3],
        ByteOrder::Big => seq![b3, b2, b1, b0],
    }
}

/// The number that the first two bytes of `s` hold in the given order.
pub open spec fn value_u16(s: Seq<u8>, order: ByteOrder) -> u16 {
    match order {
        ByteOrder::Little => (s[0] + s[1] * 256) as u16,
        ByteOrder::Big => (s[1] + s[0] * 256) as u16,
    }
}

/// The number that the first four bytes of `s` hold in the given order.
pub open spec fn value_u32(s: Seq<u8>, order: ByteOrder) -> u32 {
    match order {
        ByteOrder::Little => (s[0] + s[1] * 0x100 + s[2] * 0x1_0000 + s[3] * 0x100_0000) as u32,
        ByteOrder::Big => (s[3] + s[2] * 0x100 + s[1] * 0x1_0000 + s[0] * 0x100_0000) as u32,
    }
}

/// `u16::to_ne_bytes`: the bytes of `x` as the machine holds them in memory. The contract
/// claims that this is one of the two orders, and says no more: which one depends on the
/// machine.
#[verifier::external_body]
fn memory_image_u16(x: u16) -> (image: [u8; 2])
    ensures
        image@ == bytes_u16(x, ByteOrder::Little) || image@ == bytes_u16(x, ByteOrder::Big),
{
    x.to_ne_bytes()
}

impl ByteOrder {
    /// The order in which `image` holds the number 1: `Little` where the first byte is 1,
    /// `Big` where the second is and the first is not.
    pub open spec fn spec_of_image(image: Seq<u8>) -> Option<ByteOrder> {
        if image.len() == 2 && image[0] == 1 && image[1] == 0 {
            Some(ByteOrder::Little)
        } else if image.len() == 2 && image[0] == 0 && image[1] == 1 {
            Some(ByteOrder::Big)
        } else {
            None
        }
    }

    /// Tells the byte order from the two bytes that hold the number 1 in it; `None` where the
    /// bytes hold 1 in neither order.
    pub fn of_image(image: &[u8; 2]) -> (order: Option<ByteOrder>)
        ensures
            order == Self::spec_of_image(image@),
            order matches Some(o) ==> image@ == bytes_u16(1, o),
            order is None ==> image@ != bytes_u16(1, ByteOrder::Little) && image@ != bytes_u16(
                1,
                ByteOrder::Big,
            ),
    {
        if image[0] == 1 && image[1] == 0 {
            assert(image@ =~= bytes_u16(1, ByteOrder::Little));
            Some(ByteOrder::Little)
        } else if image[0] == 0 && image[1] == 1 {
            assert(image@ =~= bytes_u16(1, ByteOrder::Big));
            Some(ByteOrder::Big)
        } else {
            assert(bytes_u16(1, ByteOrder::Little)[0] == 1);
            assert(bytes_u16(1, ByteOrder::Little)[1] == 0);
            assert(bytes_u16(1, ByteOrder::Big)[0] == 0);
            assert(bytes_u16(1, ByteOrder::Big)[1] == 1);
            None
        }
    }

    /// The byte order of the machine that runs this code. The kernel reads and writes the
    /// integer fields of a frame in this order.
    pub fn native() -> (order: ByteOrder) {
        let image = memory_image_u16(1);
        match Self::of_image(&image) {
            Some(order) => order,
            None => {
                proof {
                    assert(false);
                }
                ByteOrder::Little
            },
        }
    }

    /// Appends the two bytes of `x` to `out`.
    pub fn put_u16(self, out: &mut Vec<u8>, x: u16)
        ensures
            final(out)@ == old(out)@ + bytes_u16(x, self),
    {
        let low = (x % 256) as u8;
        let high = (x / 256) as u8;
        match self {
            ByteOrder::Little => {
                out.push(low);
                out.push(high);
            },
            ByteOrder::Big => {
                out.push(high);
                out.push(low);
            },
        }
        assert(out@ =~= old(out)@ + bytes_u16(x, self));
    }

    /// Appends the four bytes of `x` to `out`.
    pub fn put_u32(self, out: &mut Vec<u8>, x: u32)
        ensures
            final(out)@ == old(out)@ + bytes_u32(x, self),
    {
        let b0 = (x % 256) as u8;
        let b1 = (x / 0x100 % 256) as u8;
        let b2 = (x / 0x1_0000 % 256) as u8;
        let b3 = (x / 0x100_0000) as u8;
        match self {
            ByteOrder::Little => {
                out.push(b0);
                out.push(b1);
                out.push(b2);
                out.push(b3);
            },
            ByteOrder::Big => {
                out.push(b3);
                out.push(b2);
                out.push(b1);
                out.push(b0);
            },
        }
        assert(out@ =~= old(out)@ + bytes_u32(x, self));
    }

    /// Reads the number that the two bytes of `bytes` from `at` on hold.
    pub fn get_u16(self, bytes: &[u8], at: usize) -> (x: u16)
        requires
            at + 2 <= bytes@.len(),
        ensures
            x == value_u16(bytes@.subrange(at as int, at + 2), self),
    {
        let first = bytes[at] as u16;
        let second = bytes[at + 1] as u16;
        match self {
            ByteOrder::Little => first + second * 256,
            ByteOrder::Big => second + first * 256,
        }
    }

    /// Reads the number that the four bytes of `bytes` from `at` on hold.
    pub fn get_u32(self, bytes: &[u8], at: usize) -> (x: u32)
        requires
            at + 4 <= bytes@.len(),
        ensures
            x == value_u32(bytes@.subrange(at as int, at + 4), self),
    {
        let b0 = bytes[at] as u32;
        let b1 = bytes[at + 1] as u32;
        let b2 = bytes[at + 2] as u32;
        let b3 = bytes[at + 3] as u32;
        match self {
            ByteOrder::Little => b0 + b1 * 0x100 + b2 * 0x1_0000 + b3 * 0x100_0000,
            ByteOrder::Big => b3 + b2 * 0x100 + b1 * 0x1_0000 + b0 * 0x100_0000,
        }
    }
}

/// A 16-bit number takes two bytes and is read back from them in the order it was written in.
pub proof fn lemma_u16_round_trip(x: u16, order: ByteOrder)
    ensures
        bytes_u16(x, order).len() == 2,
        value_u16(bytes_u16(x, order), order) == x,
{
}

/// A 32-bit number takes four bytes and is read back from them in the order it was written in.
pub proof fn lemma_u32_round_trip(x: u32, order: ByteOrder)
    ensures
        bytes_u32(x, order).len() == 4,
        value_u32(bytes_u32(x, order), order) == x,
{
}

} // verus!
