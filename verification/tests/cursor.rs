use nl_dump::nl::cursor::{Cursor, Endian};
use nl_dump::nl::error::{DecodeError, Field};

#[test]
fn reads_u16_in_both_orders() {
    let data = [0x12u8, 0x34, 0x12, 0x34];
    let mut cursor = Cursor::new(&data);
    assert_eq!(cursor.read_u16(Endian::Little, Field::RtaLen), Ok(0x3412));
    assert_eq!(cursor.position(), 2);
    assert_eq!(cursor.read_u16(Endian::Big, Field::RtaLen), Ok(0x1234));
    assert_eq!(cursor.position(), 4);
}

#[test]
fn reads_u32_in_both_orders() {
    let data = [0x01u8, 0x02, 0x03, 0x04, 0x01, 0x02, 0x03, 0x04];
    let mut cursor = Cursor::new(&data);
    assert_eq!(cursor.read_u32(Endian::Little, Field::NlmsgLen), Ok(0x04030201));
    assert_eq!(cursor.read_u32(Endian::Big, Field::NlmsgLen), Ok(0x01020304));
    assert_eq!(cursor.position(), 8);
}

#[test]
fn reads_i32_as_twos_complement() {
    let data = [0xFEu8, 0xFF, 0xFF, 0xFF, 0xFF, 0xFF, 0xFF, 0xFE, 0x00, 0x00, 0x00, 0x80];
    let mut cursor = Cursor::new(&data);
    assert_eq!(cursor.read_i32(Endian::Little, Field::IfiIndex), Ok(-2));
    assert_eq!(cursor.read_i32(Endian::Big, Field::IfiIndex), Ok(-2));
    assert_eq!(cursor.read_i32(Endian::Little, Field::IfiIndex), Ok(i32::MIN));
}

#[test]
fn reads_u8_and_bytes() {
    let data = [7u8, 1, 2, 3];
    let mut cursor = Cursor::new(&data);
    assert_eq!(cursor.read_u8(Field::IfiFamily), Ok(7));
    assert_eq!(cursor.read_bytes(3, Field::RtaValue), Ok(vec![1u8, 2, 3]));
    assert_eq!(cursor.position(), 4);
    assert_eq!(cursor.read_bytes(0, Field::RtaValue), Ok(vec![]));
}

#[test]
fn short_buffer_is_an_error_and_leaves_the_cursor() {
    let data = [1u8, 2, 3];
    let mut cursor = Cursor::new(&data);
    assert_eq!(
        cursor.read_u32(Endian::Little, Field::NlmsgLen),
        Err(DecodeError::UnexpectedEof { offset: 0, field: Field::NlmsgLen })
    );
    assert_eq!(cursor.position(), 0);
    cursor.set_position(2);
    assert_eq!(
        cursor.read_u16(Endian::Big, Field::NlmsgType),
        Err(DecodeError::UnexpectedEof { offset: 2, field: Field::NlmsgType })
    );
    assert_eq!(cursor.position(), 2);
    assert_eq!(cursor.read_u8(Field::IfiPad), Ok(3));
    assert_eq!(
        cursor.read_u8(Field::IfiPad),
        Err(DecodeError::UnexpectedEof { offset: 3, field: Field::IfiPad })
    );
    assert_eq!(
        cursor.read_bytes(1, Field::RtaValue),
        Err(DecodeError::UnexpectedEof { offset: 3, field: Field::RtaValue })
    );
    assert_eq!(
        cursor.read_i32(Endian::Big, Field::IfiIndex),
        Err(DecodeError::UnexpectedEof { offset: 3, field: Field::IfiIndex })
    );
}

#[test]
fn position_past_the_end_reads_nothing() {
    let data = [1u8, 2];
    let mut cursor = Cursor::new(&data);
    cursor.set_position(10);
    assert_eq!(cursor.remaining_len(), 0);
    assert_eq!(
        cursor.read_u8(Field::IfiFamily),
        Err(DecodeError::UnexpectedEof { offset: 10, field: Field::IfiFamily })
    );
    assert_eq!(cursor.position(), 10);
}

#[test]
fn remaining_len_and_size() {
    let data = [0u8; 6];
    let mut cursor = Cursor::new(&data);
    assert_eq!(cursor.get_size(), 6);
    assert_eq!(cursor.remaining_len(), 6);
    cursor.set_position(4);
    assert_eq!(cursor.remaining_len(), 2);
    assert_eq!(cursor.get_size(), 6);
    cursor.set_position(6);
    assert_eq!(cursor.remaining_len(), 0);
}

#[test]
fn cursor_carries_the_host_order() {
    let data = [0u8; 2];
    assert_eq!(Cursor::with_order(&data, Endian::Big).native_order(), Endian::Big);
    assert_eq!(Cursor::with_order(&data, Endian::Little).native_order(), Endian::Little);
    assert_eq!(Cursor::new(&data).native_order(), Endian::native());
}

#[test]
fn native_order_is_that_of_the_machine() {
    let expected = if 1u16.to_ne_bytes()[0] == 1 { Endian::Little } else { Endian::Big };
    assert_eq!(Endian::native(), expected);
}

#[test]
fn error_offset() {
    assert_eq!(DecodeError::UnexpectedEof { offset: 5, field: Field::RtaLen }.offset(), 5);
    assert_eq!(
        DecodeError::UnknownValue { offset: 6, field: Field::RtaType, value: 99 }.offset(),
        6
    );
    assert_eq!(DecodeError::BadLength { offset: 8, length: 3 }.offset(), 8);
}

#[test]
fn order_told_from_a_reading() {
    assert_eq!(Endian::of_reading(1), Endian::Little);
    assert_eq!(Endian::of_reading(0x0100), Endian::Big);
    assert_eq!(Endian::of_reading(u16::from_le_bytes([1, 0])), Endian::Little);
    assert_eq!(Endian::of_reading(u16::from_be_bytes([1, 0])), Endian::Big);
    assert_eq!(Endian::of_reading(u16::from_ne_bytes([1, 0])), Endian::native());
}
