//! A read position over a borrowed byte buffer, with fixed-width integer
//! reads in either byte order.

use vstd::prelude::*;
use crate::nl::error::{DecodeError, Field};

verus! {

/// Byte order of a multi-byte integer on the wire.
#[derive(Clone, Copy, Debug, PartialEq, Eq, Structural)]
pub enum Endian {
    Little,
    Big,
}

/// The unsigned 16-bit integer that `data` holds at `at` in `order`.
pub open spec fn u16_at(data: Seq<u8>, at: int, order: Endian) -> int
    recommends
        0 <= at,
        at + 2 <= data.len(),
{
    match order {
        Endian::Little => data[at] as int + 0x100 * (data[at + 1] as int),
        Endian::Big => 0x100 * (data[at] as int) + data[at + 1] as int,
    }
}

/// The unsigned 32-bit integer that `data` holds at `at` in `order`.
pub open spec fn u32_at(data: Seq<u8>, at: int, order: Endian) -> int
    recommends
        0 <= at,
        at + 4 <= data.len(),
{
    match order {
        Endian::Little => data[at] as int + 0x100 * (data[at + 1] as int) + 0x1_0000 * (data[at
            + 2] as int) + 0x100_0000 * (data[at + 3] as int),
        Endian::Big => 0x100_0000 * (data[at] as int) + 0x1_0000 * (data[at + 1] as int) + 0x100
            * (data[at + 2] as int) + data[at + 3] as int,
    }
}

/// The two's-complement 32-bit integer that `data` holds at `at` in `order`.
pub open spec fn i32_at(data: Seq<u8>, at: int, order: Endian) -> int
    recommends
        0 <= at,
        at + 4 <= data.len(),
{
    let u = u32_at(data, at, order);
    if u < 0x8000_0000 {
        u
    } else {
        u - 0x1_0000_0000
    }
}

/// `byteorder::LittleEndian::read_u16`: the first two bytes of `buf`, the
/// first one least significant. The crate panics on a shorter buffer.
#[verifier::external_body]
fn le_u16(buf: &[u8]) -> (r: u16)
    requires
        buf@.len() >= 2,
    ensures
        r as int == u16_at(buf@, 0, Endian::Little),
{
    <byteorder::LittleEndian as byteorder::ByteOrder>::read_u16(buf)
}

/// `byteorder::BigEndian::read_u16`: the first two bytes of `buf`, the first
/// one most significant. The crate panics on a shorter buffer.
#[verifier::external_body]
fn be_u16(buf: &[u8]) -> (r: u16)
    requires
        buf@.len() >= 2,
    ensures
        r as int == u16_at(buf@, 0, Endian::Big),
{
    <byteorder::BigEndian as byteorder::ByteOrder>::read_u16(buf)
}

/// `byteorder::LittleEndian::read_u32`: the first four bytes of `buf`, the
/// first one least significant. The crate panics on a shorter buffer.
#[verifier::external_body]
fn le_u32(buf: &[u8]) -> (r: u32)
    requires
        buf@.len() >= 4,
    ensures
        r as int == u32_at(buf@, 0, Endian::Little),
{
    <byteorder::LittleEndian as byteorder::ByteOrder>::read_u32(buf)
}

/// `byteorder::BigEndian::read_u32`: the first four bytes of `buf`, the first
/// one most significant. The crate panics on a shorter buffer.
#[verifier::external_body]
fn be_u32(buf: &[u8]) -> (r: u32)
    requires
        buf@.len() >= 4,
    ensures
        r as int == u32_at(buf@, 0, Endian::Big),
{
    <byteorder::BigEndian as byteorder::ByteOrder>::read_u32(buf)
}

/// `byteorder::LittleEndian::read_i32`: the little-endian `u32` of the first
/// four bytes, reinterpreted as two's complement.
#[verifier::external_body]
fn le_i32(buf: &[u8]) -> (r: i32)
    requires
        buf@.len() >= 4,
    ensures
        r as int == i32_at(buf@, 0, Endian::Little),
{
    <byteorder::LittleEndian as byteorder::ByteOrder>::read_i32(buf)
}

/// `byteorder::BigEndian::read_i32`: the big-endian `u32` of the first four
/// bytes, reinterpreted as two's complement.
#[verifier::external_body]
fn be_i32(buf: &[u8]) -> (r: i32)
    requires
        buf@.len() >= 4,
    ensures
        r as int == i32_at(buf@, 0, Endian::Big),
{
    <byteorder::BigEndian as byteorder::ByteOrder>::read_i32(buf)
}

/// `byteorder::NativeEndian::read_u16`: `NativeEndian` is an alias of
/// `LittleEndian` or of `BigEndian`, chosen by the target, so the result is
/// one of the two readings.
#[verifier::external_body]
fn ne_u16(buf: &[u8]) -> (r: u16)
    requires
        buf@.len() >= 2,
    ensures
        r as int == u16_at(buf@, 0, Endian::Little) || r as int == u16_at(buf@, 0, Endian::Big),
{
    <byteorder::NativeEndian as byteorder::ByteOrder>::read_u16(buf)
}

impl Endian {
    /// The byte order of the machine this runs on, found by reading the
    /// bytes `01 00` natively. Which of the two it is depends on the
    /// machine alone; what a reading means is [`Endian::of_reading`].
    pub fn native() -> (r: Endian) {
        let probe: [u8; 2] = [1, 0];
        Endian::of_reading(ne_u16(probe.as_slice()))
    }

    /// The byte order under which the bytes `01 00` read as `reading`:
    /// little-endian if they read as 1, else big-endian.
    pub open spec fn spec_of_reading(reading: u16) -> Endian {
        if reading == 1 {
            Endian::Little
        } else {
            Endian::Big
        }
    }

    /// Tells the byte order from what the bytes `01 00` read as.
    pub fn of_reading(reading: u16) -> (r: Endian)
        ensures
            r == Self::spec_of_reading(reading),
    {
        if reading == 1 {
            Endian::Little
        } else {
            Endian::Big
        }
    }

    /// Reading the bytes `01 00` in an order tells that order: a reading of
    /// them is told apart from the reading in the other order.
    pub proof fn lemma_reading_tells_order(order: Endian)
        ensures
            Self::spec_of_reading(u16_at(seq![1u8, 0u8], 0, order) as u16) == order,
    {
    }
}

/// Whether `data` holds `n` bytes from `at` on.
pub open spec fn holds(data: Seq<u8>, at: int, n: int) -> bool {
    0 <= at && at + n <= data.len()
}

/// A read position over a borrowed buffer. The position may lie past the
/// end; a read there fails. The cursor also carries the byte order in which
/// the host that produced the buffer wrote its integers.
pub struct Cursor<'a> {
    data: &'a [u8],
    pos: usize,
    native: Endian,
}

impl<'a> Cursor<'a> {
    /// A position rounded up to a multiple of four never leaves `usize`.
    #[verifier::type_invariant]
    spec fn inv(&self) -> bool {
        self.data@.len() + 3 <= usize::MAX
    }

    /// The whole buffer, whatever the position.
    pub closed spec fn bytes(&self) -> Seq<u8> {
        self.data@
    }

    /// Offset of the next byte to read.
    pub closed spec fn spec_position(&self) -> usize {
        self.pos
    }

    /// Byte order of the host that wrote the buffer.
    pub closed spec fn spec_native_order(&self) -> Endian {
        self.native
    }

    /// The same buffer and host order at another position.
    pub open spec fn moved_to(&self, old_cursor: Cursor<'a>, pos: int) -> bool {
        &&& self.bytes() == old_cursor.bytes()
        &&& self.spec_native_order() == old_cursor.spec_native_order()
        &&& self.spec_position() == pos
    }

    /// An offset inside the buffer can be rounded up to a multiple of four
    /// without leaving `usize`. This holds of every cursor; the operations
    /// that read or move one say so.
    pub open spec fn has_room(&self) -> bool {
        self.bytes().len() + 3 <= usize::MAX
    }

    /// A cursor at the start of `data`, with the byte order of this machine
    /// as the host order.
    pub fn new(data: &'a [u8]) -> (c: Self)
        requires
            data@.len() + 3 <= usize::MAX,
        ensures
            c.bytes() == data@,
            c.spec_position() == 0,
    {
        Cursor { data, pos: 0, native: Endian::native() }
    }

    /// A cursor at the start of `data`, written by a host of order `native`.
    pub fn with_order(data: &'a [u8], native: Endian) -> (c: Self)
        requires
            data@.len() + 3 <= usize::MAX,
        ensures
            c.bytes() == data@,
            c.spec_position() == 0,
            c.spec_native_order() == native,
    {
        Cursor { data, pos: 0, native }
    }

    #[verifier::when_used_as_spec(spec_position)]
    pub fn position(&self) -> (r: usize)
        ensures
            r == self.spec_position(),
            self.has_room(),
    {
        proof {
            use_type_invariant(self);
        }
        self.pos
    }

    #[verifier::when_used_as_spec(spec_native_order)]
    pub fn native_order(&self) -> (r: Endian)
        ensures
            r == self.spec_native_order(),
    {
        self.native
    }

    /// Moves to `pos`, which may lie past the end.
    pub fn set_position(&mut self, pos: usize)
        ensures
            final(self).moved_to(*old(self), pos as int),
            final(self).has_room(),
    {
        proof {
            use_type_invariant(&*self);
        }
        self.pos = pos;
    }

    /// Length of the whole buffer, whatever the position.
    pub fn get_size(&self) -> (r: usize)
        ensures
            r == self.bytes().len(),
            self.has_room(),
    {
        proof {
            use_type_invariant(self);
        }
        self.data.len()
    }

    /// Number of bytes from the position to the end; 0 past the end.
    pub fn remaining_len(&self) -> (r: usize)
        ensures
            r == if self.spec_position() <= self.bytes().len() {
                self.bytes().len() - self.spec_position()
            } else {
                0
            },
    {
        if self.pos <= self.data.len() {
            self.data.len() - self.pos
        } else {
            0
        }
    }

    /// Whether `n` bytes remain from the position on.
    pub open spec fn has(&self, n: int) -> bool {
        holds(self.bytes(), self.spec_position() as int, n)
    }

    /// The failure of a read of `field` at the position.
    pub open spec fn short_of(&self, field: Field) -> DecodeError {
        DecodeError::UnexpectedEof { offset: self.spec_position(), field }
    }

    /// The cursor `before`, `n` bytes further on.
    pub open spec fn stepped(&self, before: Cursor<'a>, n: int) -> bool {
        self.moved_to(before, before.spec_position() + n)
    }

    /// The next `n` bytes, without moving; `None` if fewer remain.
    fn peek(&self, n: usize) -> (r: Option<&'a [u8]>)
        ensures
            self.has(n as int) ==> r is Some && r->Some_0@ == self.bytes().subrange(
                self.spec_position() as int,
                self.spec_position() + n,
            ),
            !self.has(n as int) ==> r is None,
    {
        if self.pos <= self.data.len() && n <= self.data.len() - self.pos {
            Some(vstd::slice::slice_subrange(self.data, self.pos, self.pos + n))
        } else {
            None
        }
    }

    /// Reads one byte and steps over it; fails, without moving, if none
    /// remains.
    pub fn read_u8(&mut self, field: Field) -> (r: Result<u8, DecodeError>)
        ensures
            final(self).has_room(),
            old(self).has(1) ==> r == Ok::<u8, DecodeError>(
                old(self).bytes()[old(self).spec_position() as int],
            ) && final(self).stepped(*old(self), 1),
            !old(self).has(1) ==> r == Err::<u8, DecodeError>(old(self).short_of(field)) && final(self).stepped(*old(self), 0),
    {
        proof {
            use_type_invariant(&*self);
        }
        match self.peek(1) {
            Some(buf) => {
                let v = buf[0];
                self.pos = self.pos + 1;
                Ok(v)
            },
            None => Err(DecodeError::UnexpectedEof { offset: self.pos, field }),
        }
    }

    /// Reads an unsigned 16-bit integer in `order` and steps over it; fails,
    /// without moving, if fewer than two bytes remain.
    pub fn read_u16(&mut self, order: Endian, field: Field) -> (r: Result<u16, DecodeError>)
        ensures
            final(self).has_room(),
            old(self).has(2) ==> r == Ok::<u16, DecodeError>(
                u16_at(old(self).bytes(), old(self).spec_position() as int, order) as u16,
            ) && final(self).stepped(*old(self), 2),
            !old(self).has(2) ==> r == Err::<u16, DecodeError>(old(self).short_of(field)) && final(self).stepped(*old(self), 0),
    {
        proof {
            use_type_invariant(&*self);
        }
        match self.peek(2) {
            Some(buf) => {
                let v = match order {
                    Endian::Little => le_u16(buf),
                    Endian::Big => be_u16(buf),
                };
                self.pos = self.pos + 2;
                Ok(v)
            },
            None => Err(DecodeError::UnexpectedEof { offset: self.pos, field }),
        }
    }

    /// Reads an unsigned 32-bit integer in `order` and steps over it; fails,
    /// without moving, if fewer than four bytes remain.
    pub fn read_u32(&mut self, order: Endian, field: Field) -> (r: Result<u32, DecodeError>)
        ensures
            final(self).has_room(),
            old(self).has(4) ==> r == Ok::<u32, DecodeError>(
                u32_at(old(self).bytes(), old(self).spec_position() as int, order) as u32,
            ) && final(self).stepped(*old(self), 4),
            !old(self).has(4) ==> r == Err::<u32, DecodeError>(old(self).short_of(field)) && final(self).stepped(*old(self), 0),
    {
        proof {
            use_type_invariant(&*self);
        }
        match self.peek(4) {
            Some(buf) => {
                let v = match order {
                    Endian::Little => le_u32(buf),
                    Endian::Big => be_u32(buf),
                };
                self.pos = self.pos + 4;
                Ok(v)
            },
            None => Err(DecodeError::UnexpectedEof { offset: self.pos, field }),
        }
    }

    /// Reads a signed 32-bit integer in `order` and steps over it; fails,
    /// without moving, if fewer than four bytes remain.
    pub fn read_i32(&mut self, order: Endian, field: Field) -> (r: Result<i32, DecodeError>)
        ensures
            final(self).has_room(),
            old(self).has(4) ==> r == Ok::<i32, DecodeError>(
                i32_at(old(self).bytes(), old(self).spec_position() as int, order) as i32,
            ) && final(self).stepped(*old(self), 4),
            !old(self).has(4) ==> r == Err::<i32, DecodeError>(old(self).short_of(field)) && final(self).stepped(*old(self), 0),
    {
        proof {
            use_type_invariant(&*self);
        }
        match self.peek(4) {
            Some(buf) => {
                let v = match order {
                    Endian::Little => le_i32(buf),
                    Endian::Big => be_i32(buf),
                };
                self.pos = self.pos + 4;
                Ok(v)
            },
            None => Err(DecodeError::UnexpectedEof { offset: self.pos, field }),
        }
    }

    /// Reads `n` bytes and steps over them; fails, without moving, if fewer
    /// remain.
    pub fn read_bytes(&mut self, n: usize, field: Field) -> (r: Result<Vec<u8>, DecodeError>)
        ensures
            final(self).has_room(),
            old(self).has(n as int) ==> r is Ok && r->Ok_0@ == old(self).bytes().subrange(
                old(self).spec_position() as int,
                old(self).spec_position() + n,
            ) && final(self).stepped(*old(self), n as int),
            !old(self).has(n as int) ==> r == Err::<Vec<u8>, DecodeError>(
                old(self).short_of(field),
            ) && final(self).stepped(*old(self), 0),
    {
        proof {
            use_type_invariant(&*self);
        }
        match self.peek(n) {
            Some(buf) => {
                let v = vstd::slice::slice_to_vec(buf);
                self.pos = self.pos + n;
                Ok(v)
            },
            None => Err(DecodeError::UnexpectedEof { offset: self.pos, field }),
        }
    }
}

} // verus!
