//! The neighbour message body (`ndmsg`) and the cache record that may
//! follow its fixed part.

use vstd::prelude::*;
use crate::nl::text::{dec_text, flags_text, format_indent, hex_text, indent_text, int_text, push_dec, push_flags, push_hex,
    push_int};
use crate::nl::rtnetlink::neigh_tables::{NdFlags, NdState};
use crate::nl::rtnetlink::attr::attrs_text;
use crate::nl::cursor::{holds, i32_at, u16_at, u32_at, Cursor, Endian};
use crate::nl::error::{outcome, short_at, unknown_at, DecodeError, Field};
use crate::nl::rtnetlink::attr::{attr_views, attrs_at, attrs_end, Rtattr, RtattrView};
use crate::nl::table::Table;
use crate::nl::rtnetlink::neigh_tables::NdAttr;

verus! {

/// Size of the fixed part of a neighbour message.
pub const NDMSG_SIZE: usize = 12;

/// Size of the cache record.
pub const NDA_CACHEINFO_SIZE: usize = 16;

/// Ages and flags of a neighbour cache entry (`nda_cacheinfo`).
#[derive(Debug, Copy, Clone, PartialEq, Eq, Structural)]
pub struct NdaCacheinfo {
    pub ndm_confirmed: u32,
    pub ndm_used: u32,
    pub ndm_updated: u32,
    pub ndm_flags: u32,
}

/// What the sixteen bytes of `data` from `at` on decode to as a cache record.
pub open spec fn cacheinfo_at(data: Seq<u8>, at: int, order: Endian) -> Result<
    NdaCacheinfo,
    DecodeError,
> {
    if !holds(data, at, 4) {
        Err(short_at(at, Field::CacheinfoConfirmed))
    } else if !holds(data, at, 8) {
        Err(short_at(at + 4, Field::CacheinfoUsed))
    } else if !holds(data, at, 12) {
        Err(short_at(at + 8, Field::CacheinfoUpdated))
    } else if !holds(data, at, 16) {
        Err(short_at(at + 12, Field::CacheinfoFlags))
    } else {
        Ok(
            NdaCacheinfo {
                ndm_confirmed: u32_at(data, at, order) as u32,
                ndm_used: u32_at(data, at + 4, order) as u32,
                ndm_updated: u32_at(data, at + 8, order) as u32,
                ndm_flags: u32_at(data, at + 12, order) as u32,
            },
        )
    }
}

impl NdaCacheinfo {
    /// Decodes the cache record under the cursor, in the cursor's host byte
    /// order.
    pub fn read(cursor: &mut Cursor) -> (r: Result<NdaCacheinfo, DecodeError>)
        ensures
            r == cacheinfo_at(
                old(cursor).bytes(),
                old(cursor).position() as int,
                old(cursor).native_order(),
            ),
            final(cursor).moved_to(
                *old(cursor),
                match r {
                    Ok(_) => old(cursor).position() + NDA_CACHEINFO_SIZE,
                    Err(e) => e.resting_offset(),
                },
            ),
    {
        let order = cursor.native_order();
        let ndm_confirmed = cursor.read_u32(order, Field::CacheinfoConfirmed)?;
        let ndm_used = cursor.read_u32(order, Field::CacheinfoUsed)?;
        let ndm_updated = cursor.read_u32(order, Field::CacheinfoUpdated)?;
        let ndm_flags = cursor.read_u32(order, Field::CacheinfoFlags)?;
        Ok(NdaCacheinfo { ndm_confirmed, ndm_used, ndm_updated, ndm_flags })
    }
}

/// A neighbour message: one neighbour cache entry and its attributes.
#[derive(Debug, Clone, PartialEq, Eq)]
pub struct Ndmsg {
    pub ndm_family: u8,
    /// Interface index.
    pub ndm_ifindex: i32,
    /// State, a mask over `NdState`.
    pub ndm_state: u16,
    /// Flags, a mask over `NdFlags`.
    pub ndm_flags: u8,
    pub ndm_type: NdAttr,
    /// The cache record, present exactly when `ndm_type` is `NDA_CACHEINFO`.
    pub ndm_cacheinfo: Option<NdaCacheinfo>,
    pub ndm_attr: Vec<Rtattr<NdAttr>>,
}

/// A neighbour message as a mathematical value.
pub ghost struct NdmsgView {
    pub ndm_family: u8,
    pub ndm_ifindex: i32,
    pub ndm_state: u16,
    pub ndm_flags: u8,
    pub ndm_type: NdAttr,
    pub ndm_cacheinfo: Option<NdaCacheinfo>,
    pub ndm_attr: Seq<RtattrView<NdAttr>>,
}

impl View for Ndmsg {
    type V = NdmsgView;

    open spec fn view(&self) -> NdmsgView {
        NdmsgView {
            ndm_family: self.ndm_family,
            ndm_ifindex: self.ndm_ifindex,
            ndm_state: self.ndm_state,
            ndm_flags: self.ndm_flags,
            ndm_type: self.ndm_type,
            ndm_cacheinfo: self.ndm_cacheinfo,
            ndm_attr: attr_views(self.ndm_attr@),
        }
    }
}

/// Where the attributes of the neighbour message at `at` start: behind the
/// fixed part, or behind the cache record where the type calls for one.
pub open spec fn ndmsg_attrs_start(data: Seq<u8>, at: int) -> int {
    if NdAttr::spec_from_value(data[at + 11] as u32) == Some(NdAttr::NDA_CACHEINFO) {
        at + NDMSG_SIZE + NDA_CACHEINFO_SIZE
    } else {
        at + NDMSG_SIZE
    }
}

/// What the bytes of `data` from `at` on decode to as a neighbour message
/// whose attributes go on while the offset is below `end`.
///
/// Layout: family (1 byte), padding (1 and 2), interface index (4), state
/// (2), flags (1), type (1); a cache record (16) if the type is
/// `NDA_CACHEINFO`; attributes.
pub open spec fn ndmsg_at(data: Seq<u8>, at: int, end: int, order: Endian) -> Result<
    NdmsgView,
    DecodeError,
> {
    if !holds(data, at, 1) {
        Err(short_at(at, Field::NdmFamily))
    } else if !holds(data, at, 2) {
        Err(short_at(at + 1, Field::NdmPad1))
    } else if !holds(data, at, 4) {
        Err(short_at(at + 2, Field::NdmPad2))
    } else if !holds(data, at, 8) {
        Err(short_at(at + 4, Field::NdmIfindex))
    } else if !holds(data, at, 10) {
        Err(short_at(at + 8, Field::NdmState))
    } else if !holds(data, at, 11) {
        Err(short_at(at + 10, Field::NdmFlags))
    } else if !holds(data, at, 12) {
        Err(short_at(at + 11, Field::NdmType))
    } else {
        match NdAttr::spec_from_value(data[at + 11] as u32) {
            None => Err(unknown_at(at + 11, Field::NdmType, data[at + 11] as int)),
            Some(ndm_type) => {
                let cacheinfo = if ndm_type == NdAttr::NDA_CACHEINFO {
                    match cacheinfo_at(data, at + 12, order) {
                        Ok(c) => Ok(Some(c)),
                        Err(e) => Err(e),
                    }
                } else {
                    Ok(None)
                };
                match cacheinfo {
                    Err(e) => Err(e),
                    Ok(ndm_cacheinfo) => match attrs_at::<NdAttr>(
                        data,
                        ndmsg_attrs_start(data, at),
                        end,
                        order,
                    ) {
                        Err(e) => Err(e),
                        Ok(ndm_attr) => Ok(
                            NdmsgView {
                                ndm_family: data[at],
                                ndm_ifindex: i32_at(data, at + 4, order) as i32,
                                ndm_state: u16_at(data, at + 8, order) as u16,
                                ndm_flags: data[at + 10],
                                ndm_type,
                                ndm_cacheinfo,
                                ndm_attr,
                            },
                        ),
                    },
                }
            },
        }
    }
}

impl Ndmsg {
    /// Decodes the neighbour message under the cursor, in the cursor's host
    /// byte order; its attributes go on while the cursor is below
    /// `nlmsg_len`, an offset from the start of the buffer.
    pub fn read(cursor: &mut Cursor, nlmsg_len: usize) -> (r: Result<Ndmsg, DecodeError>)
        ensures
            outcome(r) == ndmsg_at(
                old(cursor).bytes(),
                old(cursor).position() as int,
                nlmsg_len as int,
                old(cursor).native_order(),
            ),
            final(cursor).moved_to(
                *old(cursor),
                match r {
                    Ok(_) => attrs_end::<NdAttr>(
                        old(cursor).bytes(),
                        ndmsg_attrs_start(old(cursor).bytes(), old(cursor).position() as int),
                        nlmsg_len as int,
                        old(cursor).native_order(),
                    ),
                    Err(e) => e.resting_offset(),
                },
            ),
    {
        let order = cursor.native_order();
        let start = cursor.position();
        let ndm_family = cursor.read_u8(Field::NdmFamily)?;
        let _ndm_pad1 = cursor.read_u8(Field::NdmPad1)?;
        let _ndm_pad2 = cursor.read_u16(order, Field::NdmPad2)?;
        let ndm_ifindex = cursor.read_i32(order, Field::NdmIfindex)?;
        let ndm_state = cursor.read_u16(order, Field::NdmState)?;
        let ndm_flags = cursor.read_u8(Field::NdmFlags)?;
        let raw_type = cursor.read_u8(Field::NdmType)?;
        let ndm_type = match NdAttr::from_value(raw_type as u32) {
            Some(t) => t,
            None => {
                return Err(
                    DecodeError::UnknownValue { offset: start + 11, field: Field::NdmType, value: raw_type as u16 },
                );
            },
        };
        let ndm_cacheinfo = match ndm_type {
            NdAttr::NDA_CACHEINFO => Some(NdaCacheinfo::read(cursor)?),
            _ => None,
        };
        let ndm_attr = Rtattr::<NdAttr>::read_all(cursor, nlmsg_len)?;
        Ok(
            Ndmsg {
                ndm_family,
                ndm_ifindex,
                ndm_state,
                ndm_flags,
                ndm_type,
                ndm_cacheinfo,
                ndm_attr,
            },
        )
    }
}

/// How a cache record is written at the level `indent`: its fields, one to a
/// line, between braces.
pub open spec fn cacheinfo_text(m: NdaCacheinfo, indent: int) -> Seq<char> {
    "{\n"@
        + indent_text(indent)
        + "    ndm_confirmed: "@
        + dec_text(m.ndm_confirmed as nat)
        + ",\n"@
        + indent_text(indent)
        + "    ndm_used: "@
        + dec_text(m.ndm_used as nat)
        + ",\n"@
        + indent_text(indent)
        + "    ndm_updated: "@
        + hex_text(m.ndm_updated as nat)
        + ",\n"@
        + indent_text(indent)
        + "    ndm_flags: "@
        + hex_text(m.ndm_flags as nat)
        + ",\n"@
        + indent_text(indent)
        + "}"@
}

impl NdaCacheinfo {
    /// The value as text, at the level `indent`.
    pub fn to_text(&self, indent: i32) -> (s: String)
        ensures
            s@ == cacheinfo_text(*self, indent as int),
    {
        let i_s = format_indent(indent);
        let mut s = "{\n".to_owned();
        s.append(i_s.as_str());
        s.append("    ndm_confirmed: ");
        push_dec(&mut s, self.ndm_confirmed as u64);
        s.append(",\n");
        s.append(i_s.as_str());
        s.append("    ndm_used: ");
        push_dec(&mut s, self.ndm_used as u64);
        s.append(",\n");
        s.append(i_s.as_str());
        s.append("    ndm_updated: ");
        push_hex(&mut s, self.ndm_updated as u64);
        s.append(",\n");
        s.append(i_s.as_str());
        s.append("    ndm_flags: ");
        push_hex(&mut s, self.ndm_flags as u64);
        s.append(",\n");
        s.append(i_s.as_str());
        s.append("}");
        s
    }

    /// Appends the value as text, at the level `indent`.
    pub fn pretty_fmt(&self, f: &mut String, indent: i32)
        ensures
            final(f)@ == old(f)@ + cacheinfo_text(*self, indent as int),
    {
        f.append(self.to_text(indent).as_str());
    }
}

/// How the place of the cache record is written: the record, or `None`.
pub open spec fn cacheinfo_or_none_text(cacheinfo: Option<NdaCacheinfo>, indent: int) -> Seq<char> {
    match cacheinfo {
        None => "None"@,
        Some(c) => cacheinfo_text(c, indent),
    }
}

/// The cache record as text, or `None`.
fn cacheinfo_or_none(cacheinfo: &Option<NdaCacheinfo>, indent: i32) -> (s: String)
    ensures
        s@ == cacheinfo_or_none_text(*cacheinfo, indent as int),
{
    match cacheinfo {
        None => "None".to_owned(),
        Some(c) => c.to_text(indent),
    }
}

/// How a neighbour message is written at the level `indent`: its fields, one to a line,
/// between braces; each attribute a level deeper.
pub open spec fn ndmsg_text(m: NdmsgView, indent: int) -> Seq<char> {
    "{\n"@
        + indent_text(indent)
        + "    ndm_family: "@
        + dec_text(m.ndm_family as nat)
        + ",\n"@
        + indent_text(indent)
        + "    ndm_ifindex: "@
        + int_text(m.ndm_ifindex as int)
        + ",\n"@
        + indent_text(indent)
        + "    ndm_state: "@
        + hex_text(m.ndm_state as nat)
        + " ("@
        + flags_text::<NdState>(m.ndm_state as u32)
        + "),\n"@
        + indent_text(indent)
        + "    ndm_flags: "@
        + hex_text(m.ndm_flags as nat)
        + " ("@
        + flags_text::<NdFlags>(m.ndm_flags as u32)
        + "),\n"@
        + indent_text(indent)
        + "    ndm_type: "@
        + m.ndm_type.spec_name()
        + ",\n"@
        + indent_text(indent)
        + "    ndm_cacheinfo: "@
        + cacheinfo_or_none_text(m.ndm_cacheinfo, indent + 1)
        + ",\n"@
        + indent_text(indent)
        + "    ndm_attr: [ "@
        + attrs_text(m.ndm_attr, indent + 1)
        + " ],\n"@
        + indent_text(indent)
        + "}"@
}

impl Ndmsg {
    /// The value as text, at the level `indent`.
    pub fn to_text(&self, indent: i32) -> (s: String)
        requires
            indent < i32::MAX,
        ensures
            s@ == ndmsg_text(self@, indent as int),
    {
        let i_s = format_indent(indent);
        let mut s = "{\n".to_owned();
        s.append(i_s.as_str());
        s.append("    ndm_family: ");
        push_dec(&mut s, self.ndm_family as u64);
        s.append(",\n");
        s.append(i_s.as_str());
        s.append("    ndm_ifindex: ");
        push_int(&mut s, self.ndm_ifindex as i64);
        s.append(",\n");
        s.append(i_s.as_str());
        s.append("    ndm_state: ");
        push_hex(&mut s, self.ndm_state as u64);
        s.append(" (");
        push_flags::<NdState>(&mut s, self.ndm_state as u32);
        s.append("),\n");
        s.append(i_s.as_str());
        s.append("    ndm_flags: ");
        push_hex(&mut s, self.ndm_flags as u64);
        s.append(" (");
        push_flags::<NdFlags>(&mut s, self.ndm_flags as u32);
        s.append("),\n");
        s.append(i_s.as_str());
        s.append("    ndm_type: ");
        s.append(self.ndm_type.name());
        s.append(",\n");
        s.append(i_s.as_str());
        s.append("    ndm_cacheinfo: ");
        s.append(cacheinfo_or_none(&self.ndm_cacheinfo, indent + 1).as_str());
        s.append(",\n");
        s.append(i_s.as_str());
        s.append("    ndm_attr: [ ");
        s.append(Rtattr::<NdAttr>::list_to_text(&self.ndm_attr, indent + 1).as_str());
        s.append(" ],\n");
        s.append(i_s.as_str());
        s.append("}");
        s
    }

    /// Appends the value as text, at the level `indent`.
    pub fn pretty_fmt(&self, f: &mut String, indent: i32)
        requires
            indent < i32::MAX,
        ensures
            final(f)@ == old(f)@ + ndmsg_text(self@, indent as int),
    {
        f.append(self.to_text(indent).as_str());
    }
}

impl Default for NdaCacheinfo {
    fn default() -> (r: NdaCacheinfo)
        ensures
            r == (NdaCacheinfo { ndm_confirmed: 0, ndm_used: 0, ndm_updated: 0, ndm_flags: 0 }),
    {
        NdaCacheinfo { ndm_confirmed: 0, ndm_used: 0, ndm_updated: 0, ndm_flags: 0 }
    }
}

impl Default for Ndmsg {
    /// Every number zero, every constant the lowest of its table, no
    /// attributes.
    fn default() -> (r: Ndmsg)
        ensures
            r@ == (NdmsgView {
                ndm_family: 0,
                ndm_ifindex: 0,
                ndm_state: 0,
                ndm_flags: 0,
                ndm_type: NdAttr::NDA_UNSPEC,
                ndm_cacheinfo: None,
                ndm_attr: Seq::empty(),
            }),
    {
        let r = Ndmsg {
            ndm_family: 0,
            ndm_ifindex: 0,
            ndm_state: 0,
            ndm_flags: 0,
            ndm_type: NdAttr::NDA_UNSPEC,
            ndm_cacheinfo: None,
            ndm_attr: Vec::new(),
        };
        assert(r@.ndm_attr =~= Seq::empty());
        r
    }
}

} // verus!
