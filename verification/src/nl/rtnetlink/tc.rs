//! The traffic-control message body (`tcmsg`).

use vstd::prelude::*;
use crate::nl::text::{dec_text, format_indent, hex_text, indent_text, int_text, push_dec, push_hex, push_int};
use crate::nl::rtnetlink::attr::attrs_text;
use crate::nl::cursor::{holds, i32_at, u16_at, u32_at, Cursor, Endian};
use crate::nl::error::{outcome, short_at, unknown_at, DecodeError, Field};
use crate::nl::rtnetlink::attr::{attr_views, attrs_at, attrs_end, Rtattr, RtattrView};
use crate::nl::table::Table;
use crate::nl::rtnetlink::tc_tables::TcAttr;

verus! {

/// Size of the fixed part of a traffic-control message.
pub const TCMSG_SIZE: usize = 20;

/// A traffic-control message: one queueing discipline, class or filter and
/// its attributes.
#[derive(Debug, Clone, PartialEq, Eq)]
pub struct Tcmsg {
    pub tcm_family: u8,
    pub tcm_ifindex: i32,
    pub tcm_handle: u32,
    pub tcm_parent: u32,
    pub tcm_info: u32,
    pub tcm_attr: Vec<Rtattr<TcAttr>>,
}

/// A traffic-control message as a mathematical value.
pub ghost struct TcmsgView {
    pub tcm_family: u8,
    pub tcm_ifindex: i32,
    pub tcm_handle: u32,
    pub tcm_parent: u32,
    pub tcm_info: u32,
    pub tcm_attr: Seq<RtattrView<TcAttr>>,
}

impl View for Tcmsg {
    type V = TcmsgView;

    open spec fn view(&self) -> TcmsgView {
        TcmsgView {
            tcm_family: self.tcm_family,
            tcm_ifindex: self.tcm_ifindex,
            tcm_handle: self.tcm_handle,
            tcm_parent: self.tcm_parent,
            tcm_info: self.tcm_info,
            tcm_attr: attr_views(self.tcm_attr@),
        }
    }
}

/// What the bytes of `data` from `at` on decode to as a traffic-control
/// message whose attributes go on while the offset is below `end`.
///
/// Layout: family (1 byte), padding (1 and 2), interface index (4), handle
/// (4), parent (4), info (4), attributes.
pub open spec fn tcmsg_at(data: Seq<u8>, at: int, end: int, order: Endian) -> Result<
    TcmsgView,
    DecodeError,
> {
    if !holds(data, at, 1) {
        Err(short_at(at, Field::TcmFamily))
    } else if !holds(data, at, 2) {
        Err(short_at(at + 1, Field::TcmPad1))
    } else if !holds(data, at, 4) {
        Err(short_at(at + 2, Field::TcmPad2))
    } else if !holds(data, at, 8) {
        Err(short_at(at + 4, Field::TcmIfindex))
    } else if !holds(data, at, 12) {
        Err(short_at(at + 8, Field::TcmHandle))
    } else if !holds(data, at, 16) {
        Err(short_at(at + 12, Field::TcmParent))
    } else if !holds(data, at, 20) {
        Err(short_at(at + 16, Field::TcmInfo))
    } else {
        match attrs_at::<TcAttr>(data, at + 20, end, order) {
            Err(e) => Err(e),
            Ok(tcm_attr) => Ok(
                TcmsgView {
                    tcm_family: data[at],
                    tcm_ifindex: i32_at(data, at + 4, order) as i32,
                    tcm_handle: u32_at(data, at + 8, order) as u32,
                    tcm_parent: u32_at(data, at + 12, order) as u32,
                    tcm_info: u32_at(data, at + 16, order) as u32,
                    tcm_attr,
                },
            ),
        }
    }
}

impl Tcmsg {
    /// Decodes the traffic-control message under the cursor, in the cursor's
    /// host byte order; its attributes go on while the cursor is below
    /// `nlmsg_len`, an offset from the start of the buffer.
    pub fn read(cursor: &mut Cursor, nlmsg_len: usize) -> (r: Result<Tcmsg, DecodeError>)
        ensures
            outcome(r) == tcmsg_at(
                old(cursor).bytes(),
                old(cursor).position() as int,
                nlmsg_len as int,
                old(cursor).native_order(),
            ),
            final(cursor).moved_to(
                *old(cursor),
                match r {
                    Ok(_) => attrs_end::<TcAttr>(
                        old(cursor).bytes(),
                        old(cursor).position() + TCMSG_SIZE,
                        nlmsg_len as int,
                        old(cursor).native_order(),
                    ),
                    Err(e) => e.resting_offset(),
                },
            ),
    {
        let order = cursor.native_order();
        let tcm_family = cursor.read_u8(Field::TcmFamily)?;
        let _tcm_pad1 = cursor.read_u8(Field::TcmPad1)?;
        let _tcm_pad2 = cursor.read_u16(order, Field::TcmPad2)?;
        let tcm_ifindex = cursor.read_i32(order, Field::TcmIfindex)?;
        let tcm_handle = cursor.read_u32(order, Field::TcmHandle)?;
        let tcm_parent = cursor.read_u32(order, Field::TcmParent)?;
        let tcm_info = cursor.read_u32(order, Field::TcmInfo)?;
        let tcm_attr = Rtattr::<TcAttr>::read_all(cursor, nlmsg_len)?;
        Ok(Tcmsg { tcm_family, tcm_ifindex, tcm_handle, tcm_parent, tcm_info, tcm_attr })
    }
}

/// How a traffic-control message is written at the level `indent`: its fields, one to a line,
/// between braces; each attribute a level deeper.
pub open spec fn tcmsg_text(m: TcmsgView, indent: int) -> Seq<char> {
    "{\n"@
        + indent_text(indent)
        + "    tcm_family: "@
        + dec_text(m.tcm_family as nat)
        + ",\n"@
        + indent_text(indent)
        + "    tcm_ifindex: "@
        + int_text(m.tcm_ifindex as int)
        + ",\n"@
        + indent_text(indent)
        + "    tcm_handle: "@
        + hex_text(m.tcm_handle as nat)
        + ",\n"@
        + indent_text(indent)
        + "    tcm_parent: "@
        + hex_text(m.tcm_parent as nat)
        + ",\n"@
        + indent_text(indent)
        + "    tcm_info: "@
        + dec_text(m.tcm_info as nat)
        + ",\n"@
        + indent_text(indent)
        + "    tcm_attr: [ "@
        + attrs_text(m.tcm_attr, indent + 1)
        + " ],\n"@
        + indent_text(indent)
        + "}"@
}

impl Tcmsg {
    /// The value as text, at the level `indent`.
    pub fn to_text(&self, indent: i32) -> (s: String)
        requires
            indent < i32::MAX,
        ensures
            s@ == tcmsg_text(self@, indent as int),
    {
        let i_s = format_indent(indent);
        let mut s = "{\n".to_owned();
        s.append(i_s.as_str());
        s.append("    tcm_family: ");
        push_dec(&mut s, self.tcm_family as u64);
        s.append(",\n");
        s.append(i_s.as_str());
        s.append("    tcm_ifindex: ");
        push_int(&mut s, self.tcm_ifindex as i64);
        s.append(",\n");
        s.append(i_s.as_str());
        s.append("    tcm_handle: ");
        push_hex(&mut s, self.tcm_handle as u64);
        s.append(",\n");
        s.append(i_s.as_str());
        s.append("    tcm_parent: ");
        push_hex(&mut s, self.tcm_parent as u64);
        s.append(",\n");
        s.append(i_s.as_str());
        s.append("    tcm_info: ");
        push_dec(&mut s, self.tcm_info as u64);
        s.append(",\n");
        s.append(i_s.as_str());
        s.append("    tcm_attr: [ ");
        s.append(Rtattr::<TcAttr>::list_to_text(&self.tcm_attr, indent + 1).as_str());
        s.append(" ],\n");
        s.append(i_s.as_str());
        s.append("}");
        s
    }

    /// Appends the value as text, at the level `indent`.
    pub fn pretty_fmt(&self, f: &mut String, indent: i32)
        requires
            indent < i32::MAX,
        ensures
            final(f)@ == old(f)@ + tcmsg_text(self@, indent as int),
    {
        f.append(self.to_text(indent).as_str());
    }
}

impl Default for Tcmsg {
    /// Every number zero, every constant the lowest of its table, no
    /// attributes.
    fn default() -> (r: Tcmsg)
        ensures
            r@ == (TcmsgView {
                tcm_family: 0,
                tcm_ifindex: 0,
                tcm_handle: 0,
                tcm_parent: 0,
                tcm_info: 0,
                tcm_attr: Seq::empty(),
            }),
    {
        let r = Tcmsg {
            tcm_family: 0,
            tcm_ifindex: 0,
            tcm_handle: 0,
            tcm_parent: 0,
            tcm_info: 0,
            tcm_attr: Vec::new(),
        };
        assert(r@.tcm_attr =~= Seq::empty());
        r
    }
}

} // verus!
