//! The link message body (`ifinfomsg`).

use vstd::prelude::*;
use crate::nl::text::{dec_text, flags_text, format_indent, hex_text, indent_text, int_text, push_dec, push_flags, push_hex, push_int};
use crate::nl::rtnetlink::link_tables::NetDeviceFlags;
use crate::nl::rtnetlink::attr::attrs_text;
use crate::nl::cursor::{holds, i32_at, u16_at, u32_at, Cursor, Endian};
use crate::nl::error::{outcome, short_at, unknown_at, DecodeError, Field};
use crate::nl::rtnetlink::attr::{attr_views, attrs_at, attrs_end, Rtattr, RtattrView};
use crate::nl::table::Table;
use crate::nl::rtnetlink::link_tables::{AddressFamily, Ifla};

verus! {

/// Size of the fixed part of a link message.
pub const IFINFOMSG_SIZE: usize = 16;

/// A link message: the state of one network device and its attributes.
#[derive(Debug, Clone, PartialEq, Eq)]
pub struct Ifinfomsg {
    pub ifi_family: AddressFamily,
    /// Device type.
    pub ifi_type: u16,
    /// Interface index.
    pub ifi_index: i32,
    /// Device flags, a mask over `NetDeviceFlags`.
    pub ifi_flags: u32,
    /// Change mask.
    pub ifi_change: u32,
    pub ifi_attr: Vec<Rtattr<Ifla>>,
}

/// A link message as a mathematical value.
pub ghost struct IfinfomsgView {
    pub ifi_family: AddressFamily,
    pub ifi_type: u16,
    pub ifi_index: i32,
    pub ifi_flags: u32,
    pub ifi_change: u32,
    pub ifi_attr: Seq<RtattrView<Ifla>>,
}

impl View for Ifinfomsg {
    type V = IfinfomsgView;

    open spec fn view(&self) -> IfinfomsgView {
        IfinfomsgView {
            ifi_family: self.ifi_family,
            ifi_type: self.ifi_type,
            ifi_index: self.ifi_index,
            ifi_flags: self.ifi_flags,
            ifi_change: self.ifi_change,
            ifi_attr: attr_views(self.ifi_attr@),
        }
    }
}

/// What the bytes of `data` from `at` on decode to as a link message whose
/// attributes go on while the offset is below `end`.
///
/// Layout: family (1 byte), padding (1), device type (2), interface index
/// (4), flags (4), change mask (4), attributes.
pub open spec fn ifinfomsg_at(data: Seq<u8>, at: int, end: int, order: Endian) -> Result<
    IfinfomsgView,
    DecodeError,
> {
    if !holds(data, at, 1) {
        Err(short_at(at, Field::IfiFamily))
    } else {
        match AddressFamily::spec_from_value(data[at] as u32) {
            None => Err(unknown_at(at, Field::IfiFamily, data[at] as int)),
            Some(ifi_family) => if !holds(data, at, 2) {
                Err(short_at(at + 1, Field::IfiPad))
            } else if !holds(data, at, 4) {
                Err(short_at(at + 2, Field::IfiType))
            } else if !holds(data, at, 8) {
                Err(short_at(at + 4, Field::IfiIndex))
            } else if !holds(data, at, 12) {
                Err(short_at(at + 8, Field::IfiFlags))
            } else if !holds(data, at, 16) {
                Err(short_at(at + 12, Field::IfiChange))
            } else {
                match attrs_at::<Ifla>(data, at + 16, end, order) {
                    Err(e) => Err(e),
                    Ok(ifi_attr) => Ok(
                        IfinfomsgView {
                            ifi_family,
                            ifi_type: u16_at(data, at + 2, order) as u16,
                            ifi_index: i32_at(data, at + 4, order) as i32,
                            ifi_flags: u32_at(data, at + 8, order) as u32,
                            ifi_change: u32_at(data, at + 12, order) as u32,
                            ifi_attr,
                        },
                    ),
                }
            },
        }
    }
}

impl Ifinfomsg {
    /// Decodes the link message under the cursor, in the cursor's host byte
    /// order; its attributes go on while the cursor is below `nlmsg_len`, an
    /// offset from the start of the buffer.
    pub fn read(cursor: &mut Cursor, nlmsg_len: usize) -> (r: Result<Ifinfomsg, DecodeError>)
        ensures
            outcome(r) == ifinfomsg_at(
                old(cursor).bytes(),
                old(cursor).position() as int,
                nlmsg_len as int,
                old(cursor).native_order(),
            ),
            final(cursor).moved_to(
                *old(cursor),
                match r {
                    Ok(_) => attrs_end::<Ifla>(
                        old(cursor).bytes(),
                        old(cursor).position() + IFINFOMSG_SIZE,
                        nlmsg_len as int,
                        old(cursor).native_order(),
                    ),
                    Err(e) => e.resting_offset(),
                },
            ),
    {
        let order = cursor.native_order();
        let start = cursor.position();
        let family = cursor.read_u8(Field::IfiFamily)?;
        let ifi_family = match AddressFamily::from_value(family as u32) {
            Some(f) => f,
            None => {
                return Err(
                    DecodeError::UnknownValue {
                        offset: start,
                        field: Field::IfiFamily,
                        value: family as u16,
                    },
                );
            },
        };
        let _ifi_pad = cursor.read_u8(Field::IfiPad)?;
        let ifi_type = cursor.read_u16(order, Field::IfiType)?;
        let ifi_index = cursor.read_i32(order, Field::IfiIndex)?;
        let ifi_flags = cursor.read_u32(order, Field::IfiFlags)?;
        let ifi_change = cursor.read_u32(order, Field::IfiChange)?;
        let ifi_attr = Rtattr::<Ifla>::read_all(cursor, nlmsg_len)?;
        Ok(Ifinfomsg { ifi_family, ifi_type, ifi_index, ifi_flags, ifi_change, ifi_attr })
    }
}

/// How a link message is written at the level `indent`: its fields, one to a line,
/// between braces; each attribute a level deeper.
pub open spec fn ifinfomsg_text(m: IfinfomsgView, indent: int) -> Seq<char> {
    "{\n"@
        + indent_text(indent)
        + "    ifi_family: "@
        + m.ifi_family.spec_name()
        + ",\n"@
        + indent_text(indent)
        + "    ifi_type: "@
        + dec_text(m.ifi_type as nat)
        + ",\n"@
        + indent_text(indent)
        + "    ifi_index: "@
        + int_text(m.ifi_index as int)
        + ",\n"@
        + indent_text(indent)
        + "    ifi_flags: "@
        + hex_text(m.ifi_flags as nat)
        + " ("@
        + flags_text::<NetDeviceFlags>(m.ifi_flags as u32)
        + "),\n"@
        + indent_text(indent)
        + "    ifi_change: "@
        + dec_text(m.ifi_change as nat)
        + ",\n"@
        + indent_text(indent)
        + "    ifi_attr: [ "@
        + attrs_text(m.ifi_attr, indent + 1)
        + " ],\n"@
        + indent_text(indent)
        + "}"@
}

impl Ifinfomsg {
    /// The value as text, at the level `indent`.
    pub fn to_text(&self, indent: i32) -> (s: String)
        requires
            indent < i32::MAX,
        ensures
            s@ == ifinfomsg_text(self@, indent as int),
    {
        let i_s = format_indent(indent);
        let mut s = "{\n".to_owned();
        s.append(i_s.as_str());
        s.append("    ifi_family: ");
        s.append(self.ifi_family.name());
        s.append(",\n");
        s.append(i_s.as_str());
        s.append("    ifi_type: ");
        push_dec(&mut s, self.ifi_type as u64);
        s.append(",\n");
        s.append(i_s.as_str());
        s.append("    ifi_index: ");
        push_int(&mut s, self.ifi_index as i64);
        s.append(",\n");
        s.append(i_s.as_str());
        s.append("    ifi_flags: ");
        push_hex(&mut s, self.ifi_flags as u64);
        s.append(" (");
        push_flags::<NetDeviceFlags>(&mut s, self.ifi_flags as u32);
        s.append("),\n");
        s.append(i_s.as_str());
        s.append("    ifi_change: ");
        push_dec(&mut s, self.ifi_change as u64);
        s.append(",\n");
        s.append(i_s.as_str());
        s.append("    ifi_attr: [ ");
        s.append(Rtattr::<Ifla>::list_to_text(&self.ifi_attr, indent + 1).as_str());
        s.append(" ],\n");
        s.append(i_s.as_str());
        s.append("}");
        s
    }

    /// Appends the value as text, at the level `indent`.
    pub fn pretty_fmt(&self, f: &mut String, indent: i32)
        requires
            indent < i32::MAX,
        ensures
            final(f)@ == old(f)@ + ifinfomsg_text(self@, indent as int),
    {
        f.append(self.to_text(indent).as_str());
    }
}

impl Default for Ifinfomsg {
    /// Every number zero, every constant the lowest of its table, no
    /// attributes.
    fn default() -> (r: Ifinfomsg)
        ensures
            r@ == (IfinfomsgView {
                ifi_family: AddressFamily::AF_UNSPEC,
                ifi_type: 0,
                ifi_index: 0,
                ifi_flags: 0,
                ifi_change: 0,
                ifi_attr: Seq::empty(),
            }),
    {
        let r = Ifinfomsg {
            ifi_family: AddressFamily::AF_UNSPEC,
            ifi_type: 0,
            ifi_index: 0,
            ifi_flags: 0,
            ifi_change: 0,
            ifi_attr: Vec::new(),
        };
        assert(r@.ifi_attr =~= Seq::empty());
        r
    }
}

} // verus!
