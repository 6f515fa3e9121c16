use netidx_excel::utf16::{next_code_point, CodePointIterator};
use netidx_excel::xloper12::{xloper12_from_const_utf16, Ownership, XlVal};

#[test]
fn ascii_code_points() {
    let bytes = b"hi";
    assert_eq!(next_code_point(bytes, 0), Some((104, 1)));
    assert_eq!(next_code_point(bytes, 1), Some((105, 1)));
    assert_eq!(next_code_point(bytes, 2), None);
}

#[test]
fn multi_byte_code_points() {
    // U+00E9, U+4E2D, U+1D11E in UTF-8.
    let two = [0xc3u8, 0xa9];
    assert_eq!(next_code_point(&two, 0), Some((0xe9, 2)));
    let three = [0xe4u8, 0xb8, 0xad];
    assert_eq!(next_code_point(&three, 0), Some((0x4e2d, 3)));
    let four = [0xf0u8, 0x9d, 0x84, 0x9e];
    assert_eq!(next_code_point(&four, 0), Some((0x1d11e, 4)));
}

#[test]
fn iterator_walks_the_buffer() {
    let bytes = [0x61u8, 0xc3, 0xa9, 0x62];
    let it = CodePointIterator::new(&bytes);
    let (it, a) = it.next().unwrap();
    assert_eq!(a, 0x61);
    let (it, e) = it.next().unwrap();
    assert_eq!(e, 0xe9);
    let (it, b) = it.next().unwrap();
    assert_eq!(b, 0x62);
    assert!(it.next().is_none());
}

#[test]
fn iterator_with_offset_skips_ahead() {
    let bytes = b"abc";
    let it = CodePointIterator::new_with_offset(bytes, 2);
    let (_, c) = it.next().unwrap();
    assert_eq!(c, 0x63);
}

#[test]
fn const_utf16_cell_is_static() {
    let buf: Vec<u16> = {
        let units: Vec<u16> = "NetidxRTD".encode_utf16().collect();
        let mut b = vec![units.len() as u16];
        b.extend_from_slice(&units);
        b
    };
    let v = xloper12_from_const_utf16(&buf);
    assert_eq!(v.own, Ownership::Static);
    match &v.val {
        XlVal::Str(copy) => assert_eq!(copy, &buf),
        _ => panic!("not a string cell"),
    }
}
