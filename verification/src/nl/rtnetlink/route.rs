//! The route message body (`rtmsg`).

use vstd::prelude::*;
use crate::nl::text::{dec_text, flags_text, format_indent, hex_text, indent_text, name_or_user_defined, push_dec, push_flags,
    push_hex, push_name_or_user_defined};
use crate::nl::rtnetlink::route_tables::{RtScope, RtTable, RtmFlags};
use crate::nl::rtnetlink::attr::attrs_text;
use crate::nl::cursor::{holds, u32_at, Cursor, Endian};
use crate::nl::error::{outcome, short_at, unknown_at, DecodeError, Field};
use crate::nl::rtnetlink::attr::{attr_views, attrs_at, attrs_end, Rtattr, RtattrView};
use crate::nl::table::Table;
use crate::nl::rtnetlink::link_tables::AddressFamily;
use crate::nl::rtnetlink::route_tables::{RtmAttr, Rtn, Rtprot};

verus! {

/// Size of the fixed part of a route message.
pub const RTMSG_SIZE: usize = 12;

/// A route message: one route and its attributes.
#[derive(Debug, Clone, PartialEq, Eq)]
pub struct Rtmsg {
    /// Address family of the route.
    pub rtm_family: AddressFamily,
    /// Length of the destination prefix.
    pub rtm_dst_len: u8,
    /// Length of the source prefix.
    pub rtm_src_len: u8,
    /// TOS filter.
    pub rtm_tos: u8,
    /// Routing table id; see `RtTable` for the reserved ones.
    pub rtm_table: u8,
    /// Who installed the route.
    pub rtm_protocol: Rtprot,
    /// Scope; see `RtScope` for the named ones.
    pub rtm_scope: u8,
    pub rtm_type: Rtn,
    /// Route flags, a mask over `RtmFlags`.
    pub rtm_flags: u32,
    pub rtm_attr: Vec<Rtattr<RtmAttr>>,
}

/// A route message as a mathematical value.
pub ghost struct RtmsgView {
    pub rtm_family: AddressFamily,
    pub rtm_dst_len: u8,
    pub rtm_src_len: u8,
    pub rtm_tos: u8,
    pub rtm_table: u8,
    pub rtm_protocol: Rtprot,
    pub rtm_scope: u8,
    pub rtm_type: Rtn,
    pub rtm_flags: u32,
    pub rtm_attr: Seq<RtattrView<RtmAttr>>,
}

impl View for Rtmsg {
    type V = RtmsgView;

    open spec fn view(&self) -> RtmsgView {
        RtmsgView {
            rtm_family: self.rtm_family,
            rtm_dst_len: self.rtm_dst_len,
            rtm_src_len: self.rtm_src_len,
            rtm_tos: self.rtm_tos,
            rtm_table: self.rtm_table,
            rtm_protocol: self.rtm_protocol,
            rtm_scope: self.rtm_scope,
            rtm_type: self.rtm_type,
            rtm_flags: self.rtm_flags,
            rtm_attr: attr_views(self.rtm_attr@),
        }
    }
}

/// What the bytes of `data` from `at` on decode to as a route message whose
/// attributes go on while the offset is below `end`.
///
/// Layout: family (1 byte), destination length (1), source length (1), TOS
/// (1), table (1), protocol (1), scope (1), type (1), flags (4), attributes.
/// Each of family, protocol and type is looked up as soon as it is read.
pub open spec fn rtmsg_at(data: Seq<u8>, at: int, end: int, order: Endian) -> Result<
    RtmsgView,
    DecodeError,
> {
    if !holds(data, at, 1) {
        Err(short_at(at, Field::RtmFamily))
    } else if AddressFamily::spec_from_value(data[at] as u32) is None {
        Err(unknown_at(at, Field::RtmFamily, data[at] as int))
    } else if !holds(data, at, 2) {
        Err(short_at(at + 1, Field::RtmDstLen))
    } else if !holds(data, at, 3) {
        Err(short_at(at + 2, Field::RtmSrcLen))
    } else if !holds(data, at, 4) {
        Err(short_at(at + 3, Field::RtmTos))
    } else if !holds(data, at, 5) {
        Err(short_at(at + 4, Field::RtmTable))
    } else if !holds(data, at, 6) {
        Err(short_at(at + 5, Field::RtmProtocol))
    } else if Rtprot::spec_from_value(data[at + 5] as u32) is None {
        Err(unknown_at(at + 5, Field::RtmProtocol, data[at + 5] as int))
    } else if !holds(data, at, 7) {
        Err(short_at(at + 6, Field::RtmScope))
    } else if !holds(data, at, 8) {
        Err(short_at(at + 7, Field::RtmType))
    } else if Rtn::spec_from_value(data[at + 7] as u32) is None {
        Err(unknown_at(at + 7, Field::RtmType, data[at + 7] as int))
    } else if !holds(data, at, 12) {
        Err(short_at(at + 8, Field::RtmFlags))
    } else {
        match attrs_at::<RtmAttr>(data, at + 12, end, order) {
            Err(e) => Err(e),
            Ok(rtm_attr) => Ok(
                RtmsgView {
                    rtm_family: AddressFamily::spec_from_value(data[at] as u32)->Some_0,
                    rtm_dst_len: data[at + 1],
                    rtm_src_len: data[at + 2],
                    rtm_tos: data[at + 3],
                    rtm_table: data[at + 4],
                    rtm_protocol: Rtprot::spec_from_value(data[at + 5] as u32)->Some_0,
                    rtm_scope: data[at + 6],
                    rtm_type: Rtn::spec_from_value(data[at + 7] as u32)->Some_0,
                    rtm_flags: u32_at(data, at + 8, order) as u32,
                    rtm_attr,
                },
            ),
        }
    }
}

impl Rtmsg {
    /// Decodes the route message under the cursor, in the cursor's host byte
    /// order; its attributes go on while the cursor is below `nlmsg_len`, an
    /// offset from the start of the buffer.
    pub fn read(cursor: &mut Cursor, nlmsg_len: usize) -> (r: Result<Rtmsg, DecodeError>)
        ensures
            outcome(r) == rtmsg_at(
                old(cursor).bytes(),
                old(cursor).position() as int,
                nlmsg_len as int,
                old(cursor).native_order(),
            ),
            final(cursor).moved_to(
                *old(cursor),
                match r {
                    Ok(_) => attrs_end::<RtmAttr>(
                        old(cursor).bytes(),
                        old(cursor).position() + RTMSG_SIZE,
                        nlmsg_len as int,
                        old(cursor).native_order(),
                    ),
                    Err(e) => e.resting_offset(),
                },
            ),
    {
        let order = cursor.native_order();
        let start = cursor.position();
        let family = cursor.read_u8(Field::RtmFamily)?;
        let rtm_family = match AddressFamily::from_value(family as u32) {
            Some(f) => f,
            None => {
                return Err(
                    DecodeError::UnknownValue { offset: start, field: Field::RtmFamily, value: family as u16 },
                );
            },
        };
        let rtm_dst_len = cursor.read_u8(Field::RtmDstLen)?;
        let rtm_src_len = cursor.read_u8(Field::RtmSrcLen)?;
        let rtm_tos = cursor.read_u8(Field::RtmTos)?;
        let rtm_table = cursor.read_u8(Field::RtmTable)?;
        let protocol = cursor.read_u8(Field::RtmProtocol)?;
        let rtm_protocol = match Rtprot::from_value(protocol as u32) {
            Some(p) => p,
            None => {
                return Err(
                    DecodeError::UnknownValue { offset: start + 5, field: Field::RtmProtocol, value: protocol as u16 },
                );
            },
        };
        let rtm_scope = cursor.read_u8(Field::RtmScope)?;
        let route_type = cursor.read_u8(Field::RtmType)?;
        let rtm_type = match Rtn::from_value(route_type as u32) {
            Some(t) => t,
            None => {
                return Err(
                    DecodeError::UnknownValue { offset: start + 7, field: Field::RtmType, value: route_type as u16 },
                );
            },
        };
        let rtm_flags = cursor.read_u32(order, Field::RtmFlags)?;
        let rtm_attr = Rtattr::<RtmAttr>::read_all(cursor, nlmsg_len)?;
        Ok(
            Rtmsg {
                rtm_family,
                rtm_dst_len,
                rtm_src_len,
                rtm_tos,
                rtm_table,
                rtm_protocol,
                rtm_scope,
                rtm_type,
                rtm_flags,
                rtm_attr,
            },
        )
    }
}

/// How a route message is written at the level `indent`: its fields, one to a line,
/// between braces; each attribute a level deeper.
pub open spec fn rtmsg_text(m: RtmsgView, indent: int) -> Seq<char> {
    "{\n"@
        + indent_text(indent)
        + "    rtm_family: "@
        + m.rtm_family.spec_name()
        + ",\n"@
        + indent_text(indent)
        + "    rtm_dst_len: "@
        + dec_text(m.rtm_dst_len as nat)
        + ",\n"@
        + indent_text(indent)
        + "    rtm_src_len: "@
        + dec_text(m.rtm_src_len as nat)
        + ",\n"@
        + indent_text(indent)
        + "    rtm_tos: "@
        + dec_text(m.rtm_tos as nat)
        + ",\n"@
        + indent_text(indent)
        + "    rtm_table: "@
        + dec_text(m.rtm_table as nat)
        + " ("@
        + name_or_user_defined::<RtTable>(m.rtm_table)
        + "),\n"@
        + indent_text(indent)
        + "    rtm_protocol: "@
        + m.rtm_protocol.spec_name()
        + ",\n"@
        + indent_text(indent)
        + "    rtm_scope: "@
        + dec_text(m.rtm_scope as nat)
        + " ("@
        + name_or_user_defined::<RtScope>(m.rtm_scope)
        + "),\n"@
        + indent_text(indent)
        + "    rtm_type: "@
        + m.rtm_type.spec_name()
        + ",\n"@
        + indent_text(indent)
        + "    rtm_flags: "@
        + hex_text(m.rtm_flags as nat)
        + " ("@
        + flags_text::<RtmFlags>(m.rtm_flags as u32)
        + "),\n"@
        + indent_text(indent)
        + "    rtm_attr: [ "@
        + attrs_text(m.rtm_attr, indent + 1)
        + " ],\n"@
        + indent_text(indent)
        + "}"@
}

impl Rtmsg {
    /// The value as text, at the level `indent`.
    pub fn to_text(&self, indent: i32) -> (s: String)
        requires
            indent < i32::MAX,
        ensures
            s@ == rtmsg_text(self@, indent as int),
    {
        let i_s = format_indent(indent);
        let mut s = "{\n".to_owned();
        s.append(i_s.as_str());
        s.append("    rtm_family: ");
        s.append(self.rtm_family.name());
        s.append(",\n");
        s.append(i_s.as_str());
        s.append("    rtm_dst_len: ");
        push_dec(&mut s, self.rtm_dst_len as u64);
        s.append(",\n");
        s.append(i_s.as_str());
        s.append("    rtm_src_len: ");
        push_dec(&mut s, self.rtm_src_len as u64);
        s.append(",\n");
        s.append(i_s.as_str());
        s.append("    rtm_tos: ");
        push_dec(&mut s, self.rtm_tos as u64);
        s.append(",\n");
        s.append(i_s.as_str());
        s.append("    rtm_table: ");
        push_dec(&mut s, self.rtm_table as u64);
        s.append(" (");
        push_name_or_user_defined::<RtTable>(&mut s, self.rtm_table);
        s.append("),\n");
        s.append(i_s.as_str());
        s.append("    rtm_protocol: ");
        s.append(self.rtm_protocol.name());
        s.append(",\n");
        s.append(i_s.as_str());
        s.append("    rtm_scope: ");
        push_dec(&mut s, self.rtm_scope as u64);
        s.append(" (");
        push_name_or_user_defined::<RtScope>(&mut s, self.rtm_scope);
        s.append("),\n");
        s.append(i_s.as_str());
        s.append("    rtm_type: ");
        s.append(self.rtm_type.name());
        s.append(",\n");
        s.append(i_s.as_str());
        s.append("    rtm_flags: ");
        push_hex(&mut s, self.rtm_flags as u64);
        s.append(" (");
        push_flags::<RtmFlags>(&mut s, self.rtm_flags as u32);
        s.append("),\n");
        s.append(i_s.as_str());
        s.append("    rtm_attr: [ ");
        s.append(Rtattr::<RtmAttr>::list_to_text(&self.rtm_attr, indent + 1).as_str());
        s.append(" ],\n");
        s.append(i_s.as_str());
        s.append("}");
        s
    }

    /// Appends the value as text, at the level `indent`.
    pub fn pretty_fmt(&self, f: &mut String, indent: i32)
        requires
            indent < i32::MAX,
        ensures
            final(f)@ == old(f)@ + rtmsg_text(self@, indent as int),
    {
        f.append(self.to_text(indent).as_str());
    }
}

impl RtScope {
    /// Appends the name of the scope `num`, or `user defined`.
    pub fn pretty_fmt(f: &mut String, num: u8)
        ensures
            final(f)@ == old(f)@ + name_or_user_defined::<RtScope>(num),
    {
        push_name_or_user_defined::<RtScope>(f, num);
    }
}

impl RtTable {
    /// Appends the name of the table `num`, or `user defined`.
    pub fn pretty_fmt(f: &mut String, num: u8)
        ensures
            final(f)@ == old(f)@ + name_or_user_defined::<RtTable>(num),
    {
        push_name_or_user_defined::<RtTable>(f, num);
    }
}

impl Default for Rtmsg {
    /// Every number zero, every constant the lowest of its table, no
    /// attributes.
    fn default() -> (r: Rtmsg)
        ensures
            r@ == (RtmsgView {
                rtm_family: AddressFamily::AF_UNSPEC,
                rtm_dst_len: 0,
                rtm_src_len: 0,
                rtm_tos: 0,
                rtm_table: 0,
                rtm_protocol: Rtprot::RTPROT_UNSPEC,
                rtm_scope: 0,
                rtm_type: Rtn::RTN_UNSPEC,
                rtm_flags: 0,
                rtm_attr: Seq::empty(),
            }),
    {
        let r = Rtmsg {
            rtm_family: AddressFamily::AF_UNSPEC,
            rtm_dst_len: 0,
            rtm_src_len: 0,
            rtm_tos: 0,
            rtm_table: 0,
            rtm_protocol: Rtprot::RTPROT_UNSPEC,
            rtm_scope: 0,
            rtm_type: Rtn::RTN_UNSPEC,
            rtm_flags: 0,
            rtm_attr: Vec::new(),
        };
        assert(r@.rtm_attr =~= Seq::empty());
        r
    }
}

} // verus!
