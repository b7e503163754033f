use uhid_device::byte_order::ByteOrder;
use uhid_device::layout::copy_field;
use uhid_device::layout::put_bytes;
use uhid_device::layout::put_padded;
use uhid_device::layout::put_zeros;
use uhid_device::layout::scan_text;

#[test]
fn u16_in_both_orders() {
    let mut out = vec![0xee];
    ByteOrder::Little.put_u16(&mut out, 0x1234);
    ByteOrder::Big.put_u16(&mut out, 0x1234);
    assert_eq!(out, vec![0xee, 0x34, 0x12, 0x12, 0x34]);
    assert_eq!(ByteOrder::Little.get_u16(&out, 1), 0x1234);
    assert_eq!(ByteOrder::Big.get_u16(&out, 3), 0x1234);
    assert_eq!(ByteOrder::Big.get_u16(&out, 1), 0x3412);
}

#[test]
fn u32_in_both_orders() {
    let mut out = Vec::new();
    ByteOrder::Little.put_u32(&mut out, 0x1234_5678);
    ByteOrder::Big.put_u32(&mut out, 0x1234_5678);
    assert_eq!(out, vec![0x78, 0x56, 0x34, 0x12, 0x12, 0x34, 0x56, 0x78]);
    assert_eq!(ByteOrder::Little.get_u32(&out, 0), 0x1234_5678);
    assert_eq!(ByteOrder::Big.get_u32(&out, 4), 0x1234_5678);
    assert_eq!(ByteOrder::Big.get_u32(&out, 0), 0x7856_3412);
}

#[test]
fn integers_agree_with_std() {
    for x in [0u32, 1, 0xff, 0x100, 0xffff, 0x1_0000, 0x00ff_ffff, 0x0100_0000, u32::MAX] {
        let mut le = Vec::new();
        ByteOrder::Little.put_u32(&mut le, x);
        assert_eq!(le, x.to_le_bytes().to_vec());
        assert_eq!(ByteOrder::Little.get_u32(&le, 0), x);
        let mut be = Vec::new();
        ByteOrder::Big.put_u32(&mut be, x);
        assert_eq!(be, x.to_be_bytes().to_vec());
        assert_eq!(ByteOrder::Big.get_u32(&be, 0), x);
    }
    for x in [0u16, 1, 0xff, 0x100, 0x7fff, 0x8000, u16::MAX] {
        let mut le = Vec::new();
        ByteOrder::Little.put_u16(&mut le, x);
        assert_eq!(le, x.to_le_bytes().to_vec());
        assert_eq!(ByteOrder::Little.get_u16(&le, 0), x);
        let mut be = Vec::new();
        ByteOrder::Big.put_u16(&mut be, x);
        assert_eq!(be, x.to_be_bytes().to_vec());
        assert_eq!(ByteOrder::Big.get_u16(&be, 0), x);
    }
}

#[test]
fn order_of_an_image() {
    assert_eq!(ByteOrder::of_image(&[1, 0]), Some(ByteOrder::Little));
    assert_eq!(ByteOrder::of_image(&[0, 1]), Some(ByteOrder::Big));
    assert_eq!(ByteOrder::of_image(&[0, 0]), None);
    assert_eq!(ByteOrder::of_image(&[1, 1]), None);
    assert_eq!(ByteOrder::of_image(&[2, 0]), None);
}

#[test]
fn native_order_is_that_of_the_machine() {
    let expected = if u16::from_ne_bytes([1, 0]) == 1 {
        ByteOrder::Little
    } else {
        ByteOrder::Big
    };
    assert_eq!(ByteOrder::native(), expected);
    let mut out = Vec::new();
    ByteOrder::native().put_u32(&mut out, 0x0a0b_0c0d);
    assert_eq!(out, 0x0a0b_0c0du32.to_ne_bytes().to_vec());
}

#[test]
fn zeros_bytes_and_padding() {
    let mut out = vec![1, 2];
    put_zeros(&mut out, 3);
    assert_eq!(out, vec![1, 2, 0, 0, 0]);
    put_zeros(&mut out, 0);
    assert_eq!(out.len(), 5);
    put_bytes(&mut out, &[7, 8]);
    assert_eq!(out, vec![1, 2, 0, 0, 0, 7, 8]);
    let mut out = vec![9];
    put_padded(&mut out, &[4, 5], 5);
    assert_eq!(out, vec![9, 4, 5, 0, 0, 0]);
    let mut out = Vec::new();
    put_padded(&mut out, &[4, 5], 2);
    assert_eq!(out, vec![4, 5]);
}

#[test]
fn text_ends_at_the_first_zero() {
    let frame = [9, 9, b'a', b'b', 0, b'c', 0, 9];
    assert_eq!(scan_text(&frame, 2, 5), 2);
    assert_eq!(scan_text(&frame, 2, 2), 2);
    assert_eq!(scan_text(&frame, 2, 1), 1);
    assert_eq!(scan_text(&frame, 4, 4), 0);
    assert_eq!(scan_text(&frame, 0, 4), 4);
    assert_eq!(scan_text(&frame, 0, 0), 0);
    assert_eq!(scan_text(&frame, 8, 0), 0);
}

#[test]
fn a_field_is_copied() {
    let frame = [1, 2, 3, 4, 5];
    assert_eq!(copy_field(&frame, 1, 3), vec![2, 3, 4]);
    assert_eq!(copy_field(&frame, 0, 5), vec![1, 2, 3, 4, 5]);
    assert_eq!(copy_field(&frame, 5, 0), Vec::<u8>::new());
}
