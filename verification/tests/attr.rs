use nl_dump::nl::cursor::{Cursor, Endian};
use nl_dump::nl::error::{DecodeError, Field};
use nl_dump::nl::rtnetlink::{Ifa, Ifla, Rtattr, TcAttr};

#[test]
fn well_formed_attribute_with_padding() {
    // length 7, kind IFLA_IFNAME, payload "lo\0", one byte of padding
    let data = [7u8, 0, 3, 0, b'l', b'o', 0, 0xEE, 0xAA];
    let mut cursor = Cursor::with_order(&data, Endian::Little);
    let a = Rtattr::<Ifla>::read(&mut cursor).unwrap();
    assert_eq!(a.rta_len, 7);
    assert_eq!(a.rta_type, Ifla::IFLA_IFNAME);
    assert_eq!(a.rta_value, vec![b'l', b'o', 0]);
    assert_eq!(cursor.position(), 8);
}

#[test]
fn attribute_lengths_and_where_the_cursor_rests() {
    // for each payload length n: 4 + n bytes are content, the cursor rests on the next multiple of 4
    for n in 0..9usize {
        let mut data = vec![(4 + n) as u8, 0, 1, 0];
        for k in 0..n {
            data.push(0x10 + k as u8);
        }
        while data.len() % 4 != 0 {
            data.push(0);
        }
        let mut cursor = Cursor::with_order(&data, Endian::Little);
        let a = Rtattr::<Ifa>::read(&mut cursor).unwrap();
        assert_eq!(a.rta_len as usize, 4 + n);
        assert_eq!(a.rta_type, Ifa::IFA_ADDRESS);
        assert_eq!(a.rta_value.len(), n);
        assert_eq!(&a.rta_value[..], &data[4..4 + n]);
        assert_eq!(cursor.position(), (4 + n + 3) / 4 * 4);
        assert_eq!(cursor.position() % 4, 0);
    }
}

#[test]
fn attribute_at_an_offset_and_in_big_endian() {
    let data = [0xFFu8, 0xFF, 0xFF, 0xFF, 0, 6, 0, 2, 0xAB, 0xCD, 0, 0];
    let mut cursor = Cursor::with_order(&data, Endian::Big);
    cursor.set_position(4);
    let a = Rtattr::<TcAttr>::read(&mut cursor).unwrap();
    assert_eq!(a.rta_len, 6);
    assert_eq!(a.rta_type, TcAttr::TCA_OPTIONS);
    assert_eq!(a.rta_value, vec![0xAB, 0xCD]);
    assert_eq!(cursor.position(), 12);
}

#[test]
fn last_attribute_without_padding_moves_past_the_end() {
    let data = [5u8, 0, 1, 0, 0xAA];
    let mut cursor = Cursor::with_order(&data, Endian::Little);
    let a = Rtattr::<Ifa>::read(&mut cursor).unwrap();
    assert_eq!(a.rta_value, vec![0xAA]);
    assert_eq!(cursor.position(), 8);
}

#[test]
fn declared_length_below_four_is_an_error() {
    for len in 0..4u8 {
        let data = [len, 0, 1, 0, 9, 9, 9, 9];
        let mut cursor = Cursor::with_order(&data, Endian::Little);
        let r = Rtattr::<Ifa>::read(&mut cursor);
        assert_eq!(r, Err(DecodeError::BadLength { offset: 0, length: len as u16 }));
        assert_eq!(cursor.position(), 4);
    }
}

#[test]
fn unlisted_kind_is_an_error() {
    let data = [4u8, 0, 0xFF, 0];
    let mut cursor = Cursor::with_order(&data, Endian::Little);
    let r = Rtattr::<Ifa>::read(&mut cursor);
    assert_eq!(
        r,
        Err(DecodeError::UnknownValue { offset: 2, field: Field::RtaType, value: 255 })
    );
    assert_eq!(cursor.position(), 4);
}

#[test]
fn kind_is_looked_up_before_the_length_is_checked() {
    let data = [0u8, 0, 9, 0];
    let mut cursor = Cursor::with_order(&data, Endian::Little);
    let r = Rtattr::<Ifa>::read(&mut cursor);
    assert_eq!(r, Err(DecodeError::UnknownValue { offset: 2, field: Field::RtaType, value: 9 }));
}

#[test]
fn truncated_attribute_is_an_error() {
    let data = [8u8, 0, 1, 0, 1, 2];
    let mut cursor = Cursor::with_order(&data, Endian::Little);
    assert_eq!(
        Rtattr::<Ifa>::read(&mut cursor),
        Err(DecodeError::UnexpectedEof { offset: 4, field: Field::RtaValue })
    );
    assert_eq!(cursor.position(), 4);

    let mut cursor = Cursor::with_order(&data[..1], Endian::Little);
    assert_eq!(
        Rtattr::<Ifa>::read(&mut cursor),
        Err(DecodeError::UnexpectedEof { offset: 0, field: Field::RtaLen })
    );
    assert_eq!(cursor.position(), 0);

    let mut cursor = Cursor::with_order(&data[..3], Endian::Little);
    assert_eq!(
        Rtattr::<Ifa>::read(&mut cursor),
        Err(DecodeError::UnexpectedEof { offset: 2, field: Field::RtaType })
    );
    assert_eq!(cursor.position(), 2);
}

fn three_attributes() -> Vec<u8> {
    vec![
        8, 0, 4, 0, 1, 2, 3, 4, // IFA_BROADCAST
        5, 0, 1, 0, 9, 0, 0, 0, // IFA_ADDRESS, padded
        6, 0, 3, 0, b'e', b'0', 0, 0, // IFA_LABEL, padded
    ]
}

#[test]
fn attributes_come_out_in_wire_order() {
    let data = three_attributes();
    let mut cursor = Cursor::with_order(&data, Endian::Little);
    let attrs = Rtattr::<Ifa>::read_all(&mut cursor, data.len()).unwrap();
    assert_eq!(attrs.len(), 3);
    assert_eq!(attrs[0].rta_type, Ifa::IFA_BROADCAST);
    assert_eq!(attrs[0].rta_value, vec![1, 2, 3, 4]);
    assert_eq!(attrs[1].rta_type, Ifa::IFA_ADDRESS);
    assert_eq!(attrs[1].rta_value, vec![9]);
    assert_eq!(attrs[2].rta_type, Ifa::IFA_LABEL);
    assert_eq!(attrs[2].rta_value, vec![b'e', b'0']);
    assert_eq!(cursor.position(), 24);
}

#[test]
fn decoding_twice_gives_the_same_list() {
    let data = three_attributes();
    let mut first = Cursor::with_order(&data, Endian::Little);
    let mut second = Cursor::with_order(&data, Endian::Little);
    let a = Rtattr::<Ifa>::read_all(&mut first, data.len()).unwrap();
    let b = Rtattr::<Ifa>::read_all(&mut second, data.len()).unwrap();
    assert_eq!(a.len(), b.len());
    for i in 0..a.len() {
        assert_eq!(a[i], b[i]);
    }
    assert_eq!(first.position(), second.position());
}

#[test]
fn attributes_stop_at_the_message_length() {
    let data = three_attributes();
    let mut cursor = Cursor::with_order(&data, Endian::Little);
    let attrs = Rtattr::<Ifa>::read_all(&mut cursor, 9).unwrap();
    assert_eq!(attrs.len(), 2);
    assert_eq!(cursor.position(), 16);

    let mut cursor = Cursor::with_order(&data, Endian::Little);
    let attrs = Rtattr::<Ifa>::read_all(&mut cursor, 0).unwrap();
    assert_eq!(attrs.len(), 0);
    assert_eq!(cursor.position(), 0);

    let mut cursor = Cursor::with_order(&data, Endian::Little);
    cursor.set_position(8);
    let attrs = Rtattr::<Ifa>::read_all(&mut cursor, 8).unwrap();
    assert!(attrs.is_empty());
    assert_eq!(cursor.position(), 8);
}

#[test]
fn message_length_past_the_buffer_is_an_error() {
    let data = three_attributes();
    let mut cursor = Cursor::with_order(&data, Endian::Little);
    let r = Rtattr::<Ifa>::read_all(&mut cursor, 25);
    assert_eq!(r, Err(DecodeError::UnexpectedEof { offset: 24, field: Field::RtaLen }));
    assert_eq!(cursor.position(), 24);
}

#[test]
fn a_bad_attribute_fails_the_whole_list() {
    let mut data = three_attributes();
    data[10] = 77; // kind of the second attribute
    let mut cursor = Cursor::with_order(&data, Endian::Little);
    let r = Rtattr::<Ifa>::read_all(&mut cursor, data.len());
    assert_eq!(r, Err(DecodeError::UnknownValue { offset: 10, field: Field::RtaType, value: 77 }));
    assert_eq!(cursor.position(), 12);
}
