//! The attribute record (`rtattr`) that follows the fixed part of every
//! rtnetlink message: a length, a kind and a payload, padded to a multiple
//! of four.

use vstd::prelude::*;
use crate::nl::{align4, NlMsg};
use crate::nl::cursor::{holds, u16_at, Cursor, Endian};
use crate::nl::error::{short_at, unknown_at, DecodeError, Field};
use crate::nl::table::Table;
use crate::nl::text::{
    byte_list, byte_list_text, dec_text, format_indent, indent_text, join, lemma_join_push,
    push_dec,
};

verus! {

/// Size of the two fields in front of an attribute's payload.
pub const RTA_HEADER_SIZE: u16 = 4;

/// One attribute, its kind read through the table `T`.
#[derive(Debug, Clone, PartialEq, Eq)]
pub struct Rtattr<T> {
    /// Length as declared on the wire: header and payload, without the
    /// padding behind them.
    pub rta_len: u16,
    pub rta_type: T,
    pub rta_value: Vec<u8>,
}

/// An attribute as a mathematical value.
pub ghost struct RtattrView<T> {
    pub rta_len: u16,
    pub rta_type: T,
    pub rta_value: Seq<u8>,
}

impl<T> View for Rtattr<T> {
    type V = RtattrView<T>;

    open spec fn view(&self) -> RtattrView<T> {
        RtattrView { rta_len: self.rta_len, rta_type: self.rta_type, rta_value: self.rta_value@ }
    }
}

/// The attributes of a list as mathematical values, in the list's order.
pub open spec fn attr_views<T>(attrs: Seq<Rtattr<T>>) -> Seq<RtattrView<T>> {
    attrs.map_values(|a: Rtattr<T>| a@)
}

/// What the bytes of `data` from `at` on decode to as one attribute.
///
/// The kind is resolved before the length is checked, and the length before
/// the payload is looked for.
pub open spec fn attr_at<T: Table>(data: Seq<u8>, at: int, order: Endian) -> Result<
    RtattrView<T>,
    DecodeError,
> {
    if !holds(data, at, 2) {
        Err(short_at(at, Field::RtaLen))
    } else if !holds(data, at, 4) {
        Err(short_at(at + 2, Field::RtaType))
    } else {
        let len = u16_at(data, at, order);
        let kind = u16_at(data, at + 2, order);
        match T::spec_from_value(kind as u32) {
            None => Err(unknown_at(at + 2, Field::RtaType, kind)),
            Some(rta_type) => if len < 4 {
                Err(DecodeError::BadLength { offset: at as usize, length: len as u16 })
            } else if !holds(data, at + 4, len - 4) {
                Err(short_at(at + 4, Field::RtaValue))
            } else {
                Ok(
                    RtattrView {
                        rta_len: len as u16,
                        rta_type,
                        rta_value: data.subrange(at + 4, at + len),
                    },
                )
            },
        }
    }
}

/// Where the record after an attribute of declared length `rta_len` at `at`
/// starts.
pub open spec fn next_attr(at: int, rta_len: u16) -> int {
    align4(at + rta_len)
}

/// What the bytes of `data` from `at` on decode to as a run of attributes
/// that goes on while the offset is below `end`.
pub open spec fn attrs_at<T: Table>(data: Seq<u8>, at: int, end: int, order: Endian) -> Result<
    Seq<RtattrView<T>>,
    DecodeError,
>
    decreases
            (if at < end {
                end - at
            } else {
                0
            }),
{
    if at >= end {
        Ok(Seq::empty())
    } else {
        match attr_at::<T>(data, at, order) {
            Err(e) => Err(e),
            Ok(first) => match attrs_at::<T>(data, next_attr(at, first.rta_len), end, order) {
                Err(e) => Err(e),
                Ok(rest) => Ok(seq![first] + rest),
            },
        }
    }
}

/// The offset at which a run of attributes that decodes stops: the first
/// record boundary that is not below `end`.
pub open spec fn attrs_end<T: Table>(data: Seq<u8>, at: int, end: int, order: Endian) -> int
    decreases
            (if at < end {
                end - at
            } else {
                0
            }),
{
    if at >= end {
        at
    } else {
        match attr_at::<T>(data, at, order) {
            Ok(first) => attrs_end::<T>(data, next_attr(at, first.rta_len), end, order),
            Err(_) => at,
        }
    }
}

impl<T: Table> Rtattr<T> {
    /// Decodes the attribute under the cursor, in the cursor's host byte
    /// order, and moves to the next record boundary.
    pub fn read(cursor: &mut Cursor) -> (r: Result<Rtattr<T>, DecodeError>)
        ensures
            match r {
                Ok(a) => attr_at::<T>(
                    old(cursor).bytes(),
                    old(cursor).position() as int,
                    old(cursor).native_order(),
                ) == Ok::<RtattrView<T>, DecodeError>(a@) && final(cursor).moved_to(
                    *old(cursor),
                    next_attr(old(cursor).position() as int, a.rta_len),
                ),
                Err(e) => attr_at::<T>(
                    old(cursor).bytes(),
                    old(cursor).position() as int,
                    old(cursor).native_order(),
                ) == Err::<RtattrView<T>, DecodeError>(e) && final(cursor).moved_to(
                    *old(cursor),
                    e.resting_offset(),
                ),
            },
    {
        let order = cursor.native_order();
        let start = cursor.position();
        let rta_len = cursor.read_u16(order, Field::RtaLen)?;
        let kind = cursor.read_u16(order, Field::RtaType)?;
        let rta_type = match T::from_value(kind as u32) {
            Some(t) => t,
            None => {
                return Err(
                    DecodeError::UnknownValue {
                        offset: start + 2,
                        field: Field::RtaType,
                        value: kind,
                    },
                );
            },
        };
        if rta_len < RTA_HEADER_SIZE {
            return Err(DecodeError::BadLength { offset: start, length: rta_len });
        }
        let payload_len: usize = (rta_len - RTA_HEADER_SIZE) as usize;
        let rta_value = cursor.read_bytes(payload_len, Field::RtaValue)?;
        NlMsg::nlmsg_align(cursor);
        Ok(Rtattr { rta_len, rta_type, rta_value })
    }

    /// Decodes attributes one after another while the cursor is below
    /// `nlmsg_len`, an offset from the start of the buffer. The list holds
    /// them in the order of the wire.
    pub fn read_all(cursor: &mut Cursor, nlmsg_len: usize) -> (r: Result<
        Vec<Rtattr<T>>,
        DecodeError,
    >)
        ensures
            match r {
                Ok(attrs) => attrs_at::<T>(
                    old(cursor).bytes(),
                    old(cursor).position() as int,
                    nlmsg_len as int,
                    old(cursor).native_order(),
                ) == Ok::<Seq<RtattrView<T>>, DecodeError>(attr_views(attrs@)) && final(cursor).moved_to(
                    *old(cursor),
                    attrs_end::<T>(
                        old(cursor).bytes(),
                        old(cursor).position() as int,
                        nlmsg_len as int,
                        old(cursor).native_order(),
                    ),
                ),
                Err(e) => attrs_at::<T>(
                    old(cursor).bytes(),
                    old(cursor).position() as int,
                    nlmsg_len as int,
                    old(cursor).native_order(),
                ) == Err::<Seq<RtattrView<T>>, DecodeError>(e) && final(cursor).moved_to(
                    *old(cursor),
                    e.resting_offset(),
                ),
            },
    {
        let mut attrs: Vec<Rtattr<T>> = Vec::new();
        let ghost data = cursor.bytes();
        let ghost order = cursor.native_order();
        let ghost start = cursor.position() as int;
        let ghost end = nlmsg_len as int;
        proof {
            assert(attr_views(attrs@) =~= Seq::empty());
            lemma_attrs_split::<T>(data, start, start, end, order, attr_views(attrs@));
        }
        while cursor.position() < nlmsg_len
            invariant
                cursor.moved_to(*old(cursor), cursor.position() as int),
                data == old(cursor).bytes(),
                order == old(cursor).native_order(),
                start == old(cursor).position(),
                end == nlmsg_len,
                attrs_at::<T>(data, start, end, order) == prepend(
                    attr_views(attrs@),
                    attrs_at::<T>(data, cursor.position() as int, end, order),
                ),
                attrs_end::<T>(data, start, end, order) == attrs_end::<T>(
                    data,
                    cursor.position() as int,
                    end,
                    order,
                ) || attrs_at::<T>(data, cursor.position() as int, end, order) is Err,
            decreases
                    (if cursor.position() < nlmsg_len {
                        nlmsg_len - cursor.position()
                    } else {
                        0
                    }),
        {
            let ghost at = cursor.position() as int;
            let ghost before = attr_views(attrs@);
            match Rtattr::<T>::read(cursor) {
                Err(e) => {
                    return Err(e);
                },
                Ok(attr) => {
                    attrs.push(attr);
                    proof {
                        assert(next_attr(at, attr.rta_len) >= at + 4);
                        assert(attr_views(attrs@) =~= before.push(attr@));
                        lemma_attrs_split::<T>(
                            data,
                            at,
                            next_attr(at, attr.rta_len),
                            end,
                            order,
                            before,
                        );
                    }
                },
            }
        }
        Ok(attrs)
    }
}

/// How an attribute is written at the level `indent`: its three fields, one
/// to a line, between braces; the payload as a list of bytes in hexadecimal.
pub open spec fn attr_text<T: Table>(a: RtattrView<T>, indent: int) -> Seq<char> {
    "{\n"@ + indent_text(indent) + "    rta_len: "@ + dec_text(a.rta_len as nat) + ",\n"@
        + indent_text(indent) + "    rta_type: "@ + a.rta_type.spec_name() + ",\n"@ + indent_text(
        indent,
    ) + "    rta_value: ["@ + byte_list_text(a.rta_value, true) + " ],\n"@ + indent_text(indent)
        + "}"@
}

/// Each attribute as it is written at the level `indent`.
pub open spec fn attr_items<T: Table>(attrs: Seq<RtattrView<T>>, indent: int) -> Seq<Seq<char>> {
    attrs.map_values(|a: RtattrView<T>| attr_text(a, indent))
}

/// How a list of attributes is written at the level `indent`: one after
/// another, with a comma, a line break and the indentation between each two.
pub open spec fn attrs_text<T: Table>(attrs: Seq<RtattrView<T>>, indent: int) -> Seq<char> {
    join(attr_items(attrs, indent), ",\n"@ + indent_text(indent))
}

impl<T: Table> Rtattr<T> {
    /// The attribute as text, at the level `indent`.
    pub fn to_text(&self, indent: i32) -> (s: String)
        ensures
            s@ == attr_text(self@, indent as int),
    {
        let i_s = format_indent(indent);
        let mut s = "{\n".to_owned();
        s.append(i_s.as_str());
        s.append("    rta_len: ");
        push_dec(&mut s, self.rta_len as u64);
        s.append(",\n");
        s.append(i_s.as_str());
        s.append("    rta_type: ");
        s.append(self.rta_type.name());
        s.append(",\n");
        s.append(i_s.as_str());
        s.append("    rta_value: [");
        s.append(byte_list(self.rta_value.as_slice(), true).as_str());
        s.append(" ],\n");
        s.append(i_s.as_str());
        s.append("}");
        s
    }

    /// Appends the attribute as text, at the level `indent`.
    pub fn pretty_fmt(&self, f: &mut String, indent: i32)
        ensures
            final(f)@ == old(f)@ + attr_text(self@, indent as int),
    {
        f.append(self.to_text(indent).as_str());
    }

    /// A list of attributes as text, at the level `indent`.
    pub fn list_to_text(attrs: &Vec<Rtattr<T>>, indent: i32) -> (s: String)
        ensures
            s@ == attrs_text(attr_views(attrs@), indent as int),
    {
        let i_s = format_indent(indent);
        let mut sep = ",\n".to_owned();
        sep.append(i_s.as_str());
        let mut s = String::new();
        let mut i: usize = 0;
        let ghost all = attr_items(attr_views(attrs@), indent as int);
        assert(all.take(0) =~= Seq::empty());
        while i < attrs.len()
            invariant
                i <= attrs.len(),
                all == attr_items(attr_views(attrs@), indent as int),
                sep@ == ",\n"@ + indent_text(indent as int),
                s@ == join(all.take(i as int), sep@),
            decreases attrs.len() - i,
        {
            let item = attrs[i].to_text(indent);
            if i > 0 {
                s.append(sep.as_str());
            }
            s.append(item.as_str());
            proof {
                assert(all.take(i + 1) =~= all.take(i as int).push(item@));
                lemma_join_push(all.take(i as int), sep@, item@);
                assert(Seq::<char>::empty() + item@ =~= item@);
            }
            i = i + 1;
        }
        assert(all.take(all.len() as int) =~= all);
        s
    }
}

/// A well-formed attribute, one whose declared length of `4 + n` and whose
/// `n` bytes of payload lie inside the buffer and whose kind is listed,
/// decodes to that kind and that payload; the record after it starts at the
/// first multiple of four that is not below the attribute's end.
pub proof fn lemma_well_formed_attr<T: Table>(
    data: Seq<u8>,
    at: int,
    order: Endian,
    n: int,
    kind: T,
)
    requires
        0 <= at,
        0 <= n,
        holds(data, at, 4 + n),
        u16_at(data, at, order) == 4 + n,
        T::spec_from_value(u16_at(data, at + 2, order) as u32) == Some(kind),
    ensures
        attr_at::<T>(data, at, order) == Ok::<RtattrView<T>, DecodeError>(
            RtattrView {
                rta_len: (4 + n) as u16,
                rta_type: kind,
                rta_value: data.subrange(at + 4, at + 4 + n),
            },
        ),
        next_attr(at, (4 + n) as u16) % 4 == 0,
        at + 4 + n <= next_attr(at, (4 + n) as u16) < at + 4 + n + 4,
{
}

/// Decoding is a function of the bytes: two lists decoded from the same
/// bytes, offsets and byte order have the same length and hold the same
/// attributes at the same places.
pub proof fn lemma_same_bytes_same_attrs<T: Table>(
    data: Seq<u8>,
    at: int,
    end: int,
    order: Endian,
    first: Seq<Rtattr<T>>,
    second: Seq<Rtattr<T>>,
)
    requires
        attrs_at::<T>(data, at, end, order) == Ok::<Seq<RtattrView<T>>, DecodeError>(
            attr_views(first),
        ),
        attrs_at::<T>(data, at, end, order) == Ok::<Seq<RtattrView<T>>, DecodeError>(
            attr_views(second),
        ),
    ensures
        first.len() == second.len(),
        forall|i: int| 0 <= i < first.len() ==> #[trigger] first[i]@ == second[i]@,
{
    let decoded = attrs_at::<T>(data, at, end, order);
    assert(decoded->Ok_0 == attr_views(first));
    assert(decoded->Ok_0 == attr_views(second));
    assert(attr_views(first).len() == first.len());
    assert(attr_views(second).len() == second.len());
    assert forall|i: int| 0 <= i < first.len() implies #[trigger] first[i]@ == second[i]@ by {
        assert(attr_views(first)[i] == first[i]@);
        assert(attr_views(second)[i] == second[i]@);
    }
}

/// A list in front of the outcome of decoding what follows it.
pub open spec fn prepend<T>(
    head: Seq<RtattrView<T>>,
    tail: Result<Seq<RtattrView<T>>, DecodeError>,
) -> Result<Seq<RtattrView<T>>, DecodeError> {
    match tail {
        Ok(rest) => Ok(head + rest),
        Err(e) => Err(e),
    }
}

proof fn lemma_attrs_split<T: Table>(
    data: Seq<u8>,
    at: int,
    next: int,
    end: int,
    order: Endian,
    head: Seq<RtattrView<T>>,
)
    ensures
        at == next ==> prepend(head, attrs_at::<T>(data, at, end, order)) == prepend(
            Seq::<RtattrView<T>>::empty() + head,
            attrs_at::<T>(data, next, end, order),
        ),
        at < end && (attr_at::<T>(data, at, order) matches Ok(a) && next == next_attr(at, a.rta_len))
            ==> prepend(head, attrs_at::<T>(data, at, end, order)) == prepend(
            head.push(attr_at::<T>(data, at, order)->Ok_0),
            attrs_at::<T>(data, next, end, order),
        ),
{
    assert(Seq::<RtattrView<T>>::empty() + head =~= head);
    if at < end {
        if let Ok(a) = attr_at::<T>(data, at, order) {
            if let Ok(rest) = attrs_at::<T>(data, next_attr(at, a.rta_len), end, order) {
                assert(head + (seq![a] + rest) =~= head.push(a) + rest);
            }
        }
    }
}

} // verus!
