use vstd::prelude::*;

verus! {

/// The bytes of the tag at the head of a frame.
pub const TAG_SIZE: usize = 4;

/// The bytes of the name field: the name, its terminator, and zero bytes to the end.
pub const NAME_SIZE: usize = 128;

/// The bytes of the serial field, which is not used and holds zero bytes.
pub const SERIAL_SIZE: usize = 64;

/// The bytes of the physical-location field, which is not used and holds zero bytes.
pub const LOCATION_SIZE: usize = 64;

/// The bytes of a data buffer: that of a report descriptor and that of a report.
pub const DATA_SIZE: usize = 4096;

/// The bytes of the payload of a `Create` record.
pub const CREATE_PAYLOAD_SIZE: usize = 4370;

/// The bytes of the payload of an `Input` record.
pub const INPUT_PAYLOAD_SIZE: usize = 4098;

/// The bytes of the payload of an `Output` record.
pub const OUTPUT_PAYLOAD_SIZE: usize = 4099;

/// The bytes of every frame: the tag and room for the largest payload.
pub const EVENT_SIZE: usize = 4374;

/// Where the name of a `Create` record begins.
pub const CREATE_NAME_AT: usize = 4;

/// Where the length of the descriptor of a `Create` record begins.
pub const CREATE_SIZE_AT: usize = 260;

/// Where the descriptor buffer of a `Create` record begins.
pub const CREATE_DATA_AT: usize = 262;

/// Where the bus type of a `Create` record begins.
pub const CREATE_BUS_AT: usize = 4358;

/// Where the vendor id of a `Create` record begins.
pub const CREATE_VENDOR_AT: usize = 4362;

/// Where the product id of a `Create` record begins.
pub const CREATE_PRODUCT_AT: usize = 4364;

/// Where the version of a `Create` record begins.
pub const CREATE_VERSION_AT: usize = 4366;

/// Where the country code of a `Create` record begins.
pub const CREATE_COUNTRY_AT: usize = 4370;

/// Where the length of the report of an `Input` record begins.
pub const INPUT_SIZE_AT: usize = 4;

/// Where the data buffer of an `Input` record begins.
pub const INPUT_DATA_AT: usize = 6;

/// Where the report type of an `Output` record stands.
pub const OUTPUT_TYPE_AT: usize = 4;

/// Where the length of the report of an `Output` record begins.
pub const OUTPUT_SIZE_AT: usize = 5;

/// Where the data buffer of an `Output` record begins.
pub const OUTPUT_DATA_AT: usize = 7;

/// The sizes add up: each payload is the sum of its fields, each field begins where the one
/// before it ends, and a frame is the tag and the largest payload.
pub proof fn lemma_layout()
    ensures
        CREATE_PAYLOAD_SIZE == NAME_SIZE + SERIAL_SIZE + LOCATION_SIZE + 2 + DATA_SIZE + 4 + 2 + 2
            + 4 + 4,
        INPUT_PAYLOAD_SIZE == 2 + DATA_SIZE,
        OUTPUT_PAYLOAD_SIZE == 1 + 2 + DATA_SIZE,
        INPUT_PAYLOAD_SIZE <= CREATE_PAYLOAD_SIZE,
        OUTPUT_PAYLOAD_SIZE <= CREATE_PAYLOAD_SIZE,
        EVENT_SIZE == TAG_SIZE + CREATE_PAYLOAD_SIZE,
        CREATE_NAME_AT == TAG_SIZE,
        CREATE_SIZE_AT == CREATE_NAME_AT + NAME_SIZE + SERIAL_SIZE + LOCATION_SIZE,
        CREATE_DATA_AT == CREATE_SIZE_AT + 2,
        CREATE_BUS_AT == CREATE_DATA_AT + DATA_SIZE,
        CREATE_VENDOR_AT == CREATE_BUS_AT + 4,
        CREATE_PRODUCT_AT == CREATE_VENDOR_AT + 2,
        CREATE_VERSION_AT == CREATE_PRODUCT_AT + 2,
        CREATE_COUNTRY_AT == CREATE_VERSION_AT + 4,
        EVENT_SIZE == CREATE_COUNTRY_AT + 4,
        INPUT_SIZE_AT == TAG_SIZE,
        INPUT_DATA_AT == INPUT_SIZE_AT + 2,
        OUTPUT_TYPE_AT == TAG_SIZE,
        OUTPUT_SIZE_AT == OUTPUT_TYPE_AT + 1,
        OUTPUT_DATA_AT == OUTPUT_SIZE_AT + 2,
{
}

/// `count` zero bytes.
pub open spec fn zeros(count: nat) -> Seq<u8> {
    Seq::new(count, |i: int| 0u8)
}

/// `text` followed by zero bytes up to `width` bytes in all.
pub open spec fn padded(text: Seq<u8>, width: nat) -> Seq<u8>
    recommends
        text.len() <= width,
{
    text + zeros((width - text.len()) as nat)
}

/// The number of bytes of `field` before its first zero byte; the length of `field` where it
/// holds no zero byte.
pub open spec fn text_len(field: Seq<u8>) -> nat
    decreases field.len(),
{
    if field.len() == 0 || field[0] == 0 {
        0
    } else {
        1 + text_len(field.drop_first())
    }
}

/// The text that `field` holds: its bytes before the first zero byte.
pub open spec fn text_of(field: Seq<u8>) -> Seq<u8> {
    field.take(text_len(field) as int)
}

/// `text_len` is the place of the first zero byte: no byte before it is zero, and the byte
/// at it is, unless the field ends there.
pub proof fn lemma_text_len(field: Seq<u8>)
    ensures
        text_len(field) <= field.len(),
        forall|i: int| 0 <= i < text_len(field) ==> field[i] != 0,
        text_len(field) < field.len() ==> field[text_len(field) as int] == 0,
    decreases field.len(),
{
    if field.len() == 0 || field[0] == 0 {
    } else {
        let rest = field.drop_first();
        lemma_text_len(rest);
        assert forall|i: int| 0 <= i < text_len(field) implies field[i] != 0 by {
            if i > 0 {
                assert(field[i] == rest[i - 1]);
            }
        }
        if text_len(field) < field.len() {
            assert(field[text_len(field) as int] == rest[text_len(rest) as int]);
        }
    }
}

/// The place of the first zero byte is `text_len`: if no byte of `field` before `n` is zero
/// and the byte at `n` is, or the field ends at `n`, then `text_len(field)` is `n`.
pub proof fn lemma_text_len_is(field: Seq<u8>, n: nat)
    requires
        n <= field.len(),
        forall|i: int| 0 <= i < n ==> field[i] != 0,
        n < field.len() ==> field[n as int] == 0,
    ensures
        text_len(field) == n,
    decreases field.len(),
{
    if n == 0 {
    } else {
        let rest = field.drop_first();
        assert forall|i: int| 0 <= i < n - 1 implies rest[i] != 0 by {
            assert(rest[i] == field[i + 1]);
        }
        lemma_text_len_is(rest, (n - 1) as nat);
    }
}

/// Appends `count` zero bytes to `out`.
pub fn put_zeros(out: &mut Vec<u8>, count: usize)
    ensures
        final(out)@ == old(out)@ + zeros(count as nat),
{
    let mut done: usize = 0;
    while done < count
        invariant
            done <= count,
            out@ == old(out)@ + zeros(done as nat),
        decreases count - done,
    {
        out.push(0u8);
        done = done + 1;
        assert(out@ =~= old(out)@ + zeros(done as nat));
    }
}

/// Appends the bytes of `bytes` to `out`.
pub fn put_bytes(out: &mut Vec<u8>, bytes: &[u8])
    ensures
        final(out)@ == old(out)@ + bytes@,
{
    let mut done: usize = 0;
    while done < bytes.len()
        invariant
            done <= bytes@.len(),
            out@ == old(out)@ + bytes@.take(done as int),
        decreases bytes@.len() - done,
    {
        out.push(bytes[done]);
        done = done + 1;
        assert(out@ =~= old(out)@ + bytes@.take(done as int));
    }
    assert(bytes@.take(done as int) =~= bytes@);
}

/// Appends `text` to `out`, and zero bytes after it up to `width` bytes in all.
pub fn put_padded(out: &mut Vec<u8>, text: &[u8], width: usize)
    requires
        text@.len() <= width,
    ensures
        final(out)@ == old(out)@ + padded(text@, width as nat),
{
    put_bytes(out, text);
    put_zeros(out, width - text.len());
    assert(out@ =~= old(out)@ + padded(text@, width as nat));
}

/// The number of bytes of `frame` from `at` on, `width` at most, before the first zero
/// byte among them.
pub fn scan_text(frame: &[u8], at: usize, width: usize) -> (len: usize)
    requires
        at + width <= frame@.len(),
    ensures
        len == text_len(frame@.subrange(at as int, at + width)),
        len <= width,
{
    let ghost field = frame@.subrange(at as int, at + width);
    let total: usize = frame.len();
    let mut len: usize = 0;
    while len < width && frame[at + len] != 0
        invariant
            len <= width,
            at + width <= total,
            total == frame@.len(),
            field == frame@.subrange(at as int, at + width),
            forall|i: int| 0 <= i < len ==> field[i] != 0,
        decreases width - len,
    {
        assert(field[len as int] == frame@[at + len]);
        len = len + 1;
    }
    proof {
        if len < width {
            assert(field[len as int] == frame@[at + len]);
        }
        lemma_text_len_is(field, len as nat);
    }
    len
}

/// Copies the `len` bytes of `frame` from `at` on.
pub fn copy_field(frame: &[u8], at: usize, len: usize) -> (field: Vec<u8>)
    requires
        at + len <= frame@.len(),
    ensures
        field@ == frame@.subrange(at as int, at + len),
{
    let total: usize = frame.len();
    let mut field: Vec<u8> = Vec::with_capacity(len);
    let mut done: usize = 0;
    while done < len
        invariant
            done <= len,
            at + len <= total,
            total == frame@.len(),
            field@ == frame@.subrange(at as int, at + done),
        decreases len - done,
    {
        field.push(frame[at + done]);
        done = done + 1;
        assert(field@ =~= frame@.subrange(at as int, at + done));
    }
    field
}

} // verus!
