//! The address message body (`ifaddrmsg`).

use vstd::prelude::*;
use crate::nl::text::{dec_text, flags_text, format_indent, hex_text, indent_text, push_dec, push_flags, push_hex};
use crate::nl::rtnetlink::addr_tables::IfaFlags;
use crate::nl::rtnetlink::attr::attrs_text;
use crate::nl::cursor::{holds, u32_at, Cursor, Endian};
use crate::nl::error::{outcome, short_at, unknown_at, DecodeError, Field};
use crate::nl::rtnetlink::attr::{attr_views, attrs_at, attrs_end, Rtattr, RtattrView};
use crate::nl::table::Table;
use crate::nl::rtnetlink::addr_tables::Ifa;
use crate::nl::rtnetlink::link_tables::AddressFamily;

verus! {

/// Size of the fixed part of an address message.
pub const IFADDRMSG_SIZE: usize = 8;

/// An address message: one address of one interface and its attributes.
#[derive(Debug, Clone, PartialEq, Eq)]
pub struct Ifaddrmsg {
    /// Address type.
    pub ifa_family: AddressFamily,
    /// Prefix length of the address.
    pub ifa_prefixlen: u8,
    /// Address flags, a mask over `IfaFlags`.
    pub ifa_flags: u8,
    /// Address scope.
    pub ifa_scope: u8,
    /// Interface index.
    pub ifa_index: u32,
    pub ifa_attr: Vec<Rtattr<Ifa>>,
}

/// An address message as a mathematical value.
pub ghost struct IfaddrmsgView {
    pub ifa_family: AddressFamily,
    pub ifa_prefixlen: u8,
    pub ifa_flags: u8,
    pub ifa_scope: u8,
    pub ifa_index: u32,
    pub ifa_attr: Seq<RtattrView<Ifa>>,
}

impl View for Ifaddrmsg {
    type V = IfaddrmsgView;

    open spec fn view(&self) -> IfaddrmsgView {
        IfaddrmsgView {
            ifa_family: self.ifa_family,
            ifa_prefixlen: self.ifa_prefixlen,
            ifa_flags: self.ifa_flags,
            ifa_scope: self.ifa_scope,
            ifa_index: self.ifa_index,
            ifa_attr: attr_views(self.ifa_attr@),
        }
    }
}

/// What the bytes of `data` from `at` on decode to as an address message
/// whose attributes go on while the offset is below `end`.
///
/// Layout: family (1 byte), prefix length (1), flags (1), scope (1),
/// interface index (4), attributes.
pub open spec fn ifaddrmsg_at(data: Seq<u8>, at: int, end: int, order: Endian) -> Result<
    IfaddrmsgView,
    DecodeError,
> {
    if !holds(data, at, 1) {
        Err(short_at(at, Field::IfaFamily))
    } else {
        match AddressFamily::spec_from_value(data[at] as u32) {
            None => Err(unknown_at(at, Field::IfaFamily, data[at] as int)),
            Some(ifa_family) => if !holds(data, at, 2) {
                Err(short_at(at + 1, Field::IfaPrefixlen))
            } else if !holds(data, at, 3) {
                Err(short_at(at + 2, Field::IfaFlags))
            } else if !holds(data, at, 4) {
                Err(short_at(at + 3, Field::IfaScope))
            } else if !holds(data, at, 8) {
                Err(short_at(at + 4, Field::IfaIndex))
            } else {
                match attrs_at::<Ifa>(data, at + 8, end, order) {
                    Err(e) => Err(e),
                    Ok(ifa_attr) => Ok(
                        IfaddrmsgView {
                            ifa_family,
                            ifa_prefixlen: data[at + 1],
                            ifa_flags: data[at + 2],
                            ifa_scope: data[at + 3],
                            ifa_index: u32_at(data, at + 4, order) as u32,
                            ifa_attr,
                        },
                    ),
                }
            },
        }
    }
}

impl Ifaddrmsg {
    /// Decodes the address message under the cursor, in the cursor's host
    /// byte order; its attributes go on while the cursor is below
    /// `nlmsg_len`, an offset from the start of the buffer.
    pub fn read(cursor: &mut Cursor, nlmsg_len: usize) -> (r: Result<Ifaddrmsg, DecodeError>)
        ensures
            outcome(r) == ifaddrmsg_at(
                old(cursor).bytes(),
                old(cursor).position() as int,
                nlmsg_len as int,
                old(cursor).native_order(),
            ),
            final(cursor).moved_to(
                *old(cursor),
                match r {
                    Ok(_) => attrs_end::<Ifa>(
                        old(cursor).bytes(),
                        old(cursor).position() + IFADDRMSG_SIZE,
                        nlmsg_len as int,
                        old(cursor).native_order(),
                    ),
                    Err(e) => e.resting_offset(),
                },
            ),
    {
        let order = cursor.native_order();
        let start = cursor.position();
        let family = cursor.read_u8(Field::IfaFamily)?;
        let ifa_family = match AddressFamily::from_value(family as u32) {
            Some(f) => f,
            None => {
                return Err(
                    DecodeError::UnknownValue { offset: start, field: Field::IfaFamily, value: family as u16 },
                );
            },
        };
        let ifa_prefixlen = cursor.read_u8(Field::IfaPrefixlen)?;
        let ifa_flags = cursor.read_u8(Field::IfaFlags)?;
        let ifa_scope = cursor.read_u8(Field::IfaScope)?;
        let ifa_index = cursor.read_u32(order, Field::IfaIndex)?;
        let ifa_attr = Rtattr::<Ifa>::read_all(cursor, nlmsg_len)?;
        Ok(Ifaddrmsg { ifa_family, ifa_prefixlen, ifa_flags, ifa_scope, ifa_index, ifa_attr })
    }
}

/// How an address message is written at the level `indent`: its fields, one to a line,
/// between braces; each attribute a level deeper.
pub open spec fn ifaddrmsg_text(m: IfaddrmsgView, indent: int) -> Seq<char> {
    "{\n"@
        + indent_text(indent)
        + "    ifa_family: "@
        + m.ifa_family.spec_name()
        + ",\n"@
        + indent_text(indent)
        + "    ifa_prefixlen: "@
        + dec_text(m.ifa_prefixlen as nat)
        + ",\n"@
        + indent_text(indent)
        + "    ifa_flags: "@
        + hex_text(m.ifa_flags as nat)
        + " ("@
        + flags_text::<IfaFlags>(m.ifa_flags as u32)
        + "),\n"@
        + indent_text(indent)
        + "    ifa_scope: "@
        + dec_text(m.ifa_scope as nat)
        + ",\n"@
        + indent_text(indent)
        + "    ifa_index: "@
        + dec_text(m.ifa_index as nat)
        + ",\n"@
        + indent_text(indent)
        + "    ifa_attr: [ "@
        + attrs_text(m.ifa_attr, indent + 1)
        + " ],\n"@
        + indent_text(indent)
        + "}"@
}

impl Ifaddrmsg {
    /// The value as text, at the level `indent`.
    pub fn to_text(&self, indent: i32) -> (s: String)
        requires
            indent < i32::MAX,
        ensures
            s@ == ifaddrmsg_text(self@, indent as int),
    {
        let i_s = format_indent(indent);
        let mut s = "{\n".to_owned();
        s.append(i_s.as_str());
        s.append("    ifa_family: ");
        s.append(self.ifa_family.name());
        s.append(",\n");
        s.append(i_s.as_str());
        s.append("    ifa_prefixlen: ");
        push_dec(&mut s, self.ifa_prefixlen as u64);
        s.append(",\n");
        s.append(i_s.as_str());
        s.append("    ifa_flags: ");
        push_hex(&mut s, self.ifa_flags as u64);
        s.append(" (");
        push_flags::<IfaFlags>(&mut s, self.ifa_flags as u32);
        s.append("),\n");
        s.append(i_s.as_str());
        s.append("    ifa_scope: ");
        push_dec(&mut s, self.ifa_scope as u64);
        s.append(",\n");
        s.append(i_s.as_str());
        s.append("    ifa_index: ");
        push_dec(&mut s, self.ifa_index as u64);
        s.append(",\n");
        s.append(i_s.as_str());
        s.append("    ifa_attr: [ ");
        s.append(Rtattr::<Ifa>::list_to_text(&self.ifa_attr, indent + 1).as_str());
        s.append(" ],\n");
        s.append(i_s.as_str());
        s.append("}");
        s
    }

    /// Appends the value as text, at the level `indent`.
    pub fn pretty_fmt(&self, f: &mut String, indent: i32)
        requires
            indent < i32::MAX,
        ensures
            final(f)@ == old(f)@ + ifaddrmsg_text(self@, indent as int),
    {
        f.append(self.to_text(indent).as_str());
    }
}

impl Default for Ifaddrmsg {
    /// Every number zero, every constant the lowest of its table, no
    /// attributes.
    fn default() -> (r: Ifaddrmsg)
        ensures
            r@ == (IfaddrmsgView {
                ifa_family: AddressFamily::AF_UNSPEC,
                ifa_prefixlen: 0,
                ifa_flags: 0,
                ifa_scope: 0,
                ifa_index: 0,
                ifa_attr: Seq::empty(),
            }),
    {
        let r = Ifaddrmsg {
            ifa_family: AddressFamily::AF_UNSPEC,
            ifa_prefixlen: 0,
            ifa_flags: 0,
            ifa_scope: 0,
            ifa_index: 0,
            ifa_attr: Vec::new(),
        };
        assert(r@.ifa_attr =~= Seq::empty());
        r
    }
}

} // verus!
