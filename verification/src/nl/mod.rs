//! The capture wrapper, the Netlink header and the dispatch to the message
//! bodies.

pub mod cursor;
pub mod error;
pub mod netlink;
pub mod netlink_gen;
pub mod rtnetlink;
pub mod table;
pub mod text;

use vstd::prelude::*;
use self::cursor::{holds, u16_at, u32_at, Cursor, Endian};
use self::error::{outcome, short_at, unknown_at, DecodeError, Field};
use self::netlink::{NetlinkFamily, NlMsgType};
use self::rtnetlink::addr::ifaddrmsg_at;
use self::rtnetlink::attr::attrs_end;
use self::rtnetlink::link::ifinfomsg_at;
use self::rtnetlink::neigh::{ndmsg_at, ndmsg_attrs_start};
use self::rtnetlink::route::rtmsg_at;
use self::rtnetlink::tc::tcmsg_at;
use self::rtnetlink::{
    Ifa, Ifaddrmsg, IfaddrmsgView, Ifinfomsg, IfinfomsgView, Ifla, NdAttr, Ndmsg, NdmsgView,
    NrMsgType, RtmAttr, Rtmsg, RtmsgView, TcAttr, Tcmsg, TcmsgView,
};
use self::rtnetlink::addr::ifaddrmsg_text;
use self::rtnetlink::link::ifinfomsg_text;
use self::rtnetlink::neigh::ndmsg_text;
use self::rtnetlink::route::rtmsg_text;
use self::rtnetlink::tc::tcmsg_text;
use self::table::Table;
use self::text::{
    byte_list, byte_list_text, dec_text, format_indent, hex_text, indent_text, push_dec, push_hex,
};

verus! {

/// Records inside a Netlink message start at multiples of this (`NLMSG_ALIGNTO`).
pub const NLMSG_ALIGNTO: u64 = 4;

/// `p` itself where it is a multiple of four, else the next multiple above it.
pub open spec fn align4(p: int) -> int {
    if p % 4 == 0 {
        p
    } else {
        p - p % 4 + 4
    }
}

/// `align4(p)` is the least multiple of four that is not below `p`.
pub proof fn lemma_align4_is_least(p: int, m: int)
    requires
        m % 4 == 0,
        m >= p,
    ensures
        align4(p) % 4 == 0,
        p <= align4(p) <= m,
        align4(p) < p + 4,
        p % 4 == 0 ==> align4(p) == p,
{
}

/// Size of the cooked capture header.
pub const COOKED_HEADER_SIZE: usize = 16;

/// The cooked capture header that precedes the Netlink message in a captured
/// packet. Its integers are big-endian on every host.
#[derive(Debug, PartialEq, Eq)]
pub struct CookedHeader {
    pub header_type: u16,
    pub arphdr_type: u16,
    pub address_length: u16,
    pub address: [u8; 8],
    pub netlink_family: NetlinkFamily,
}

/// What the sixteen bytes of `data` from `at` on decode to as a cooked header.
pub open spec fn cooked_header_at(data: Seq<u8>, at: int) -> Result<CookedHeader, DecodeError> {
    if !holds(data, at, 2) {
        Err(short_at(at, Field::HeaderType))
    } else if !holds(data, at, 4) {
        Err(short_at(at + 2, Field::ArphdrType))
    } else if !holds(data, at, 6) {
        Err(short_at(at + 4, Field::AddressLength))
    } else if !holds(data, at, 14) {
        Err(short_at(at + 6, Field::Address))
    } else if !holds(data, at, 16) {
        Err(short_at(at + 14, Field::NetlinkFamily))
    } else {
        let family = u16_at(data, at + 14, Endian::Big);
        match NetlinkFamily::spec_from_value(family as u32) {
            None => Err(unknown_at(at + 14, Field::NetlinkFamily, family)),
            Some(netlink_family) => Ok(
                CookedHeader {
                    header_type: u16_at(data, at, Endian::Big) as u16,
                    arphdr_type: u16_at(data, at + 2, Endian::Big) as u16,
                    address_length: u16_at(data, at + 4, Endian::Big) as u16,
                    address: array_of(data.subrange(at + 6, at + 14)),
                    netlink_family,
                },
            ),
        }
    }
}

/// The array that holds the eight bytes of `s`.
pub open spec fn array_of(s: Seq<u8>) -> [u8; 8] {
    [s[0], s[1], s[2], s[3], s[4], s[5], s[6], s[7]]
}

impl Default for CookedHeader {
    fn default() -> (r: CookedHeader)
        ensures
            r.header_type == 0,
            r.arphdr_type == 0,
            r.address_length == 0,
            r.address@ == seq![0u8, 0u8, 0u8, 0u8, 0u8, 0u8, 0u8, 0u8],
            r.netlink_family == NetlinkFamily::NETLINK_ROUTE,
    {
        CookedHeader {
            header_type: 0,
            arphdr_type: 0,
            address_length: 0,
            address: [0;8],
            netlink_family: NetlinkFamily::NETLINK_ROUTE,
        }
    }
}

impl CookedHeader {
    /// Decodes the cooked header. It stands at the start of the buffer, and
    /// so must the cursor; on success the cursor has moved over exactly the
    /// sixteen bytes of the header.
    pub fn read(cursor: &mut Cursor) -> (r: Result<CookedHeader, DecodeError>)
        requires
            old(cursor).position() == 0,
        ensures
            r == cooked_header_at(old(cursor).bytes(), 0),
            match r {
                Ok(_) => final(cursor).moved_to(*old(cursor), COOKED_HEADER_SIZE as int),
                Err(e) => final(cursor).moved_to(*old(cursor), e.resting_offset()),
            },
    {
        let header_type = cursor.read_u16(Endian::Big, Field::HeaderType)?;
        let arphdr_type = cursor.read_u16(Endian::Big, Field::ArphdrType)?;
        let address_length = cursor.read_u16(Endian::Big, Field::AddressLength)?;
        let bytes = cursor.read_bytes(8, Field::Address)?;
        let address: [u8; 8] = [
            bytes[0],
            bytes[1],
            bytes[2],
            bytes[3],
            bytes[4],
            bytes[5],
            bytes[6],
            bytes[7],
        ];
        let family = cursor.read_u16(Endian::Big, Field::NetlinkFamily)?;
        match NetlinkFamily::from_value(family as u32) {
            None => Err(
                DecodeError::UnknownValue { offset: 14, field: Field::NetlinkFamily, value: family },
            ),
            Some(netlink_family) => Ok(
                CookedHeader { header_type, arphdr_type, address_length, address, netlink_family },
            ),
        }
    }
}

/// A Netlink message type: a control type, a type of the routing family, or
/// a number that neither table lists, kept as it came.
#[derive(Debug, PartialEq, Eq, Structural, Copy, Clone)]
pub enum NlMsgTypeEnum {
    Raw(u16),
    NlMsgType(NlMsgType),
    NrMsgType(NrMsgType),
}

impl Default for NlMsgTypeEnum {
    fn default() -> (r: NlMsgTypeEnum)
        ensures
            r == NlMsgTypeEnum::Raw(0),
    {
        NlMsgTypeEnum::Raw(0)
    }
}

impl NlMsgTypeEnum {
    /// How the number `raw` in a message of `family` is understood: as a
    /// control type if it is one; else, in the routing family, as one of that
    /// family's types if it is one; else as the bare number.
    pub open spec fn spec_resolve(raw: u16, family: NetlinkFamily) -> NlMsgTypeEnum {
        match NlMsgType::spec_from_value(raw as u32) {
            Some(t) => NlMsgTypeEnum::NlMsgType(t),
            None => if family == NetlinkFamily::NETLINK_ROUTE {
                match NrMsgType::spec_from_value(raw as u32) {
                    Some(t) => NlMsgTypeEnum::NrMsgType(t),
                    None => NlMsgTypeEnum::Raw(raw),
                }
            } else {
                NlMsgTypeEnum::Raw(raw)
            },
        }
    }

    /// Resolves the number `raw` found in a message of `family`.
    pub fn resolve(raw: u16, family: NetlinkFamily) -> (r: NlMsgTypeEnum)
        ensures
            r == Self::spec_resolve(raw, family),
    {
        match NlMsgType::from_value(raw as u32) {
            Some(t) => NlMsgTypeEnum::NlMsgType(t),
            None => match family {
                NetlinkFamily::NETLINK_ROUTE => match NrMsgType::from_value(raw as u32) {
                    Some(t) => NlMsgTypeEnum::NrMsgType(t),
                    None => NlMsgTypeEnum::Raw(raw),
                },
                _ => NlMsgTypeEnum::Raw(raw),
            },
        }
    }

    /// The control types are the numbers 1 to 4, in every family.
    pub proof fn lemma_control_range(raw: u16, family: NetlinkFamily)
        ensures
            Self::spec_resolve(raw, family) is NlMsgType <==> 1 <= raw <= 4,
            Self::spec_resolve(raw, family) is NrMsgType ==> family
                == NetlinkFamily::NETLINK_ROUTE,
            Self::spec_resolve(raw, family) matches NlMsgTypeEnum::Raw(n) ==> n == raw,
    {
    }
}

/// Size of the fixed Netlink message header.
pub const NLMSG_HEADER_SIZE: usize = 16;

/// The fixed header of a Netlink message (`nlmsghdr`), in host byte order.
#[derive(Debug, PartialEq, Eq)]
pub struct Nlmsghdr {
    /// Length of the message in bytes, this header included.
    pub nlmsg_len: u32,
    pub nlmsg_type: NlMsgTypeEnum,
    pub nlmsg_flags: u16,
    pub nlmsg_seq: u32,
    /// Port id of the sending socket.
    pub nlmsg_pid: u32,
}

impl Default for Nlmsghdr {
    fn default() -> (r: Nlmsghdr)
        ensures
            r.nlmsg_len == 0,
            r.nlmsg_type == NlMsgTypeEnum::Raw(0),
            r.nlmsg_flags == 0,
            r.nlmsg_seq == 0,
            r.nlmsg_pid == 0,
    {
        Nlmsghdr {
            nlmsg_len: 0,
            nlmsg_type: NlMsgTypeEnum::Raw(0),
            nlmsg_flags: 0,
            nlmsg_seq: 0,
            nlmsg_pid: 0,
        }
    }
}

/// What the sixteen bytes of `data` from `at` on decode to as the header of
/// a message of `family`, written by a host of byte order `order`.
pub open spec fn nlmsghdr_at(data: Seq<u8>, at: int, order: Endian, family: NetlinkFamily) -> Result<
    Nlmsghdr,
    DecodeError,
> {
    if !holds(data, at, 4) {
        Err(short_at(at, Field::NlmsgLen))
    } else if !holds(data, at, 6) {
        Err(short_at(at + 4, Field::NlmsgType))
    } else if !holds(data, at, 8) {
        Err(short_at(at + 6, Field::NlmsgFlags))
    } else if !holds(data, at, 12) {
        Err(short_at(at + 8, Field::NlmsgSeq))
    } else if !holds(data, at, 16) {
        Err(short_at(at + 12, Field::NlmsgPid))
    } else {
        Ok(
            Nlmsghdr {
                nlmsg_len: u32_at(data, at, order) as u32,
                nlmsg_type: NlMsgTypeEnum::spec_resolve(u16_at(data, at + 4, order) as u16, family),
                nlmsg_flags: u16_at(data, at + 6, order) as u16,
                nlmsg_seq: u32_at(data, at + 8, order) as u32,
                nlmsg_pid: u32_at(data, at + 12, order) as u32,
            },
        )
    }
}

impl Nlmsghdr {
    /// Decodes the message header under the cursor, in the cursor's host
    /// byte order.
    pub fn read(cursor: &mut Cursor, family: NetlinkFamily) -> (r: Result<Nlmsghdr, DecodeError>)
        ensures
            r == nlmsghdr_at(
                old(cursor).bytes(),
                old(cursor).position() as int,
                old(cursor).native_order(),
                family,
            ),
            match r {
                Ok(_) => final(cursor).moved_to(
                    *old(cursor),
                    old(cursor).position() + NLMSG_HEADER_SIZE,
                ),
                Err(e) => final(cursor).moved_to(*old(cursor), e.resting_offset()),
            },
    {
        let order = cursor.native_order();
        let nlmsg_len = cursor.read_u32(order, Field::NlmsgLen)?;
        let raw_type = cursor.read_u16(order, Field::NlmsgType)?;
        let nlmsg_type = NlMsgTypeEnum::resolve(raw_type, family);
        let nlmsg_flags = cursor.read_u16(order, Field::NlmsgFlags)?;
        let nlmsg_seq = cursor.read_u32(order, Field::NlmsgSeq)?;
        let nlmsg_pid = cursor.read_u32(order, Field::NlmsgPid)?;
        Ok(Nlmsghdr { nlmsg_len, nlmsg_type, nlmsg_flags, nlmsg_seq, nlmsg_pid })
    }
}

/// The body of a Netlink message.
#[derive(Debug, Clone, PartialEq, Eq)]
pub enum NlMsgEnum {
    /// The message type carries no body.
    NoBody,
    /// The message type is valid, but its body is not decoded here.
    Unsupported,
    /// The bytes do not have the shape that the message type calls for.
    Malformed,
    Ifinfomsg(Ifinfomsg),
    Ifaddrmsg(Ifaddrmsg),
    Rtmsg(Rtmsg),
    Ndmsg(Ndmsg),
    Tcmsg(Tcmsg),
}

/// A message body as a mathematical value.
pub ghost enum NlMsgEnumView {
    NoBody,
    Unsupported,
    Malformed,
    Ifinfomsg(IfinfomsgView),
    Ifaddrmsg(IfaddrmsgView),
    Rtmsg(RtmsgView),
    Ndmsg(NdmsgView),
    Tcmsg(TcmsgView),
}

impl View for NlMsgEnum {
    type V = NlMsgEnumView;

    open spec fn view(&self) -> NlMsgEnumView {
        match self {
            NlMsgEnum::NoBody => NlMsgEnumView::NoBody,
            NlMsgEnum::Unsupported => NlMsgEnumView::Unsupported,
            NlMsgEnum::Malformed => NlMsgEnumView::Malformed,
            NlMsgEnum::Ifinfomsg(m) => NlMsgEnumView::Ifinfomsg(m@),
            NlMsgEnum::Ifaddrmsg(m) => NlMsgEnumView::Ifaddrmsg(m@),
            NlMsgEnum::Rtmsg(m) => NlMsgEnumView::Rtmsg(m@),
            NlMsgEnum::Ndmsg(m) => NlMsgEnumView::Ndmsg(m@),
            NlMsgEnum::Tcmsg(m) => NlMsgEnumView::Tcmsg(m@),
        }
    }
}

impl Default for NlMsgEnum {
    fn default() -> (r: NlMsgEnum)
        ensures
            r@ == NlMsgEnumView::Unsupported,
    {
        NlMsgEnum::Unsupported
    }
}

/// The shape of the body that a message type of the routing family calls for.
#[derive(Debug, Clone, Copy, PartialEq, Eq, Structural)]
pub enum BodyKind {
    Ifinfomsg,
    Ifaddrmsg,
    Rtmsg,
    Ndmsg,
    Tcmsg,
    /// A type whose body is not decoded here.
    Other,
}

impl BodyKind {
    /// Link types carry a link message, address types an address message,
    /// route types a route message, neighbour types a neighbour message;
    /// queueing discipline, class and filter types carry a traffic-control
    /// message.
    pub open spec fn spec_of(t: NrMsgType) -> BodyKind {
        match t {
            NrMsgType::RTM_NEWLINK | NrMsgType::RTM_DELLINK | NrMsgType::RTM_GETLINK => {
                BodyKind::Ifinfomsg
            },
            NrMsgType::RTM_NEWADDR | NrMsgType::RTM_DELADDR | NrMsgType::RTM_GETADDR => {
                BodyKind::Ifaddrmsg
            },
            NrMsgType::RTM_NEWROUTE | NrMsgType::RTM_DELROUTE | NrMsgType::RTM_GETROUTE => {
                BodyKind::Rtmsg
            },
            NrMsgType::RTM_NEWNEIGH | NrMsgType::RTM_DELNEIGH | NrMsgType::RTM_GETNEIGH => {
                BodyKind::Ndmsg
            },
            NrMsgType::RTM_NEWQDISC
            | NrMsgType::RTM_DELQDISC
            | NrMsgType::RTM_GETQDISC
            | NrMsgType::RTM_NEWTCLASS
            | NrMsgType::RTM_DELTCLASS
            | NrMsgType::RTM_GETTCLASS
            | NrMsgType::RTM_NEWTFILTER
            | NrMsgType::RTM_DELTFILTER
            | NrMsgType::RTM_GETTFILTER => BodyKind::Tcmsg,
            _ => BodyKind::Other,
        }
    }

    /// The shape of the body that `t` calls for.
    pub fn of(t: NrMsgType) -> (r: BodyKind)
        ensures
            r == Self::spec_of(t),
    {
        match t {
            NrMsgType::RTM_NEWLINK | NrMsgType::RTM_DELLINK | NrMsgType::RTM_GETLINK => {
                BodyKind::Ifinfomsg
            },
            NrMsgType::RTM_NEWADDR | NrMsgType::RTM_DELADDR | NrMsgType::RTM_GETADDR => {
                BodyKind::Ifaddrmsg
            },
            NrMsgType::RTM_NEWROUTE | NrMsgType::RTM_DELROUTE | NrMsgType::RTM_GETROUTE => {
                BodyKind::Rtmsg
            },
            NrMsgType::RTM_NEWNEIGH | NrMsgType::RTM_DELNEIGH | NrMsgType::RTM_GETNEIGH => {
                BodyKind::Ndmsg
            },
            NrMsgType::RTM_NEWQDISC
            | NrMsgType::RTM_DELQDISC
            | NrMsgType::RTM_GETQDISC
            | NrMsgType::RTM_NEWTCLASS
            | NrMsgType::RTM_DELTCLASS
            | NrMsgType::RTM_GETTCLASS
            | NrMsgType::RTM_NEWTFILTER
            | NrMsgType::RTM_DELTFILTER
            | NrMsgType::RTM_GETTFILTER => BodyKind::Tcmsg,
            _ => BodyKind::Other,
        }
    }
}

/// A decoded body, or `Malformed` where the decode failed.
pub open spec fn body_or_malformed<V>(
    r: Result<V, DecodeError>,
    wrap: spec_fn(V) -> NlMsgEnumView,
) -> NlMsgEnumView {
    match r {
        Ok(m) => wrap(m),
        Err(_) => NlMsgEnumView::Malformed,
    }
}

/// What the bytes of `data` from `at` on decode to as the body of a message
/// of type `nlmsg_type` that ends at the offset `end`.
///
/// A control type has no body. A type of the routing family has the body
/// that [`BodyKind::spec_of`] names, or `Malformed` if the bytes do not
/// decode as one. Every other type is `Unsupported`.
pub open spec fn body_at(
    data: Seq<u8>,
    at: int,
    end: int,
    order: Endian,
    nlmsg_type: NlMsgTypeEnum,
) -> NlMsgEnumView {
    match nlmsg_type {
        NlMsgTypeEnum::NlMsgType(_) => NlMsgEnumView::NoBody,
        NlMsgTypeEnum::Raw(_) => NlMsgEnumView::Unsupported,
        NlMsgTypeEnum::NrMsgType(t) => match BodyKind::spec_of(t) {
            BodyKind::Ifinfomsg => body_or_malformed(
                ifinfomsg_at(data, at, end, order),
                |m: IfinfomsgView| NlMsgEnumView::Ifinfomsg(m),
            ),
            BodyKind::Ifaddrmsg => body_or_malformed(
                ifaddrmsg_at(data, at, end, order),
                |m: IfaddrmsgView| NlMsgEnumView::Ifaddrmsg(m),
            ),
            BodyKind::Rtmsg => body_or_malformed(
                rtmsg_at(data, at, end, order),
                |m: RtmsgView| NlMsgEnumView::Rtmsg(m),
            ),
            BodyKind::Ndmsg => body_or_malformed(
                ndmsg_at(data, at, end, order),
                |m: NdmsgView| NlMsgEnumView::Ndmsg(m),
            ),
            BodyKind::Tcmsg => body_or_malformed(
                tcmsg_at(data, at, end, order),
                |m: TcmsgView| NlMsgEnumView::Tcmsg(m),
            ),
            BodyKind::Other => NlMsgEnumView::Unsupported,
        },
    }
}

/// The kind of body that a message type calls for, if it is a type of the
/// routing family.
pub open spec fn called_for(nlmsg_type: NlMsgTypeEnum) -> Option<BodyKind> {
    match nlmsg_type {
        NlMsgTypeEnum::NrMsgType(t) => Some(BodyKind::spec_of(t)),
        _ => None,
    }
}

/// The three tags that are no decoded body tell three cases apart: a type
/// that carries no body, a type whose body is not decoded here, and a type
/// whose body is decoded here but whose bytes do not decode. Every other
/// outcome is the decoded body of the kind that the type calls for.
pub proof fn lemma_three_way_tagging(
    data: Seq<u8>,
    at: int,
    end: int,
    order: Endian,
    nlmsg_type: NlMsgTypeEnum,
)
    ensures
        body_at(data, at, end, order, nlmsg_type) is NoBody <==> nlmsg_type is NlMsgType,
        body_at(data, at, end, order, nlmsg_type) is Unsupported <==> (nlmsg_type is Raw
            || called_for(nlmsg_type) == Some(BodyKind::Other)),
        body_at(data, at, end, order, nlmsg_type) is Malformed <==> (match called_for(nlmsg_type) {
            Some(BodyKind::Ifinfomsg) => ifinfomsg_at(data, at, end, order) is Err,
            Some(BodyKind::Ifaddrmsg) => ifaddrmsg_at(data, at, end, order) is Err,
            Some(BodyKind::Rtmsg) => rtmsg_at(data, at, end, order) is Err,
            Some(BodyKind::Ndmsg) => ndmsg_at(data, at, end, order) is Err,
            Some(BodyKind::Tcmsg) => tcmsg_at(data, at, end, order) is Err,
            _ => false,
        }),
        body_at(data, at, end, order, nlmsg_type) is Ifinfomsg <==> (called_for(nlmsg_type) == Some(
            BodyKind::Ifinfomsg,
        ) && ifinfomsg_at(data, at, end, order) is Ok),
        body_at(data, at, end, order, nlmsg_type) is Ifaddrmsg <==> (called_for(nlmsg_type) == Some(
            BodyKind::Ifaddrmsg,
        ) && ifaddrmsg_at(data, at, end, order) is Ok),
        body_at(data, at, end, order, nlmsg_type) is Rtmsg <==> (called_for(nlmsg_type) == Some(
            BodyKind::Rtmsg,
        ) && rtmsg_at(data, at, end, order) is Ok),
        body_at(data, at, end, order, nlmsg_type) is Ndmsg <==> (called_for(nlmsg_type) == Some(
            BodyKind::Ndmsg,
        ) && ndmsg_at(data, at, end, order) is Ok),
        body_at(data, at, end, order, nlmsg_type) is Tcmsg <==> (called_for(nlmsg_type) == Some(
            BodyKind::Tcmsg,
        ) && tcmsg_at(data, at, end, order) is Ok),
{
}

/// Where a decode stops: at `ok_end` if it succeeded, else where its error
/// says.
pub open spec fn stop_of<V>(r: Result<V, DecodeError>, ok_end: int) -> int {
    match r {
        Ok(_) => ok_end,
        Err(e) => e.resting_offset(),
    }
}

/// Where the cursor rests after the body at `at` was decoded: where it was
/// if the type has no body or none that is decoded here, else where the
/// body's decoder stopped.
pub open spec fn body_end(
    data: Seq<u8>,
    at: int,
    end: int,
    order: Endian,
    nlmsg_type: NlMsgTypeEnum,
) -> int {
    match nlmsg_type {
        NlMsgTypeEnum::NlMsgType(_) => at,
        NlMsgTypeEnum::Raw(_) => at,
        NlMsgTypeEnum::NrMsgType(t) => match BodyKind::spec_of(t) {
            BodyKind::Ifinfomsg => stop_of(
                ifinfomsg_at(data, at, end, order),
                attrs_end::<Ifla>(data, at + 16, end, order),
            ),
            BodyKind::Ifaddrmsg => stop_of(
                ifaddrmsg_at(data, at, end, order),
                attrs_end::<Ifa>(data, at + 8, end, order),
            ),
            BodyKind::Rtmsg => stop_of(
                rtmsg_at(data, at, end, order),
                attrs_end::<RtmAttr>(data, at + 12, end, order),
            ),
            BodyKind::Ndmsg => stop_of(
                ndmsg_at(data, at, end, order),
                attrs_end::<NdAttr>(data, ndmsg_attrs_start(data, at), end, order),
            ),
            BodyKind::Tcmsg => stop_of(
                tcmsg_at(data, at, end, order),
                attrs_end::<TcAttr>(data, at + 20, end, order),
            ),
            BodyKind::Other => at,
        },
    }
}

impl NlMsgEnum {
    /// Decodes the body of a message of type `nlmsg_type` under the cursor.
    /// `nlmsg_len` is the length from the message's header, taken as the
    /// offset from the start of the buffer at which its attributes end.
    pub fn read(cursor: &mut Cursor, nlmsg_type: NlMsgTypeEnum, nlmsg_len: usize) -> (r: NlMsgEnum)
        ensures
            r@ == body_at(
                old(cursor).bytes(),
                old(cursor).position() as int,
                nlmsg_len as int,
                old(cursor).native_order(),
                nlmsg_type,
            ),
            final(cursor).moved_to(
                *old(cursor),
                body_end(
                    old(cursor).bytes(),
                    old(cursor).position() as int,
                    nlmsg_len as int,
                    old(cursor).native_order(),
                    nlmsg_type,
                ),
            ),
    {
        match nlmsg_type {
            NlMsgTypeEnum::NrMsgType(t) => match BodyKind::of(t) {
                BodyKind::Ifinfomsg => match Ifinfomsg::read(cursor, nlmsg_len) {
                    Ok(msg) => NlMsgEnum::Ifinfomsg(msg),
                    Err(_) => NlMsgEnum::Malformed,
                },
                BodyKind::Ifaddrmsg => match Ifaddrmsg::read(cursor, nlmsg_len) {
                    Ok(msg) => NlMsgEnum::Ifaddrmsg(msg),
                    Err(_) => NlMsgEnum::Malformed,
                },
                BodyKind::Rtmsg => match Rtmsg::read(cursor, nlmsg_len) {
                    Ok(msg) => NlMsgEnum::Rtmsg(msg),
                    Err(_) => NlMsgEnum::Malformed,
                },
                BodyKind::Ndmsg => match Ndmsg::read(cursor, nlmsg_len) {
                    Ok(msg) => NlMsgEnum::Ndmsg(msg),
                    Err(_) => NlMsgEnum::Malformed,
                },
                BodyKind::Tcmsg => match Tcmsg::read(cursor, nlmsg_len) {
                    Ok(msg) => NlMsgEnum::Tcmsg(msg),
                    Err(_) => NlMsgEnum::Malformed,
                },
                BodyKind::Other => NlMsgEnum::Unsupported,
            },
            NlMsgTypeEnum::NlMsgType(_) => NlMsgEnum::NoBody,
            NlMsgTypeEnum::Raw(_) => NlMsgEnum::Unsupported,
        }
    }
}

/// One decoded packet: the family from the cooked header, the Netlink
/// header and the body.
#[derive(Debug, PartialEq, Eq)]
pub struct NlMsg {
    pub netlink_family: NetlinkFamily,
    pub nlmsghdr: Nlmsghdr,
    pub nlmsg: NlMsgEnum,
}

/// A decoded packet as a mathematical value.
pub ghost struct NlMsgView {
    pub netlink_family: NetlinkFamily,
    pub nlmsghdr: Nlmsghdr,
    pub nlmsg: NlMsgEnumView,
}

impl View for NlMsg {
    type V = NlMsgView;

    open spec fn view(&self) -> NlMsgView {
        NlMsgView {
            netlink_family: self.netlink_family,
            nlmsghdr: self.nlmsghdr,
            nlmsg: self.nlmsg@,
        }
    }
}

impl Default for NlMsg {
    fn default() -> (r: NlMsg)
        ensures
            r.netlink_family == NetlinkFamily::NETLINK_ROUTE,
            r.nlmsghdr.nlmsg_len == 0,
            r.nlmsghdr.nlmsg_type == NlMsgTypeEnum::Raw(0),
            r.nlmsghdr.nlmsg_flags == 0,
            r.nlmsghdr.nlmsg_seq == 0,
            r.nlmsghdr.nlmsg_pid == 0,
            r.nlmsg@ == NlMsgEnumView::Unsupported,
    {
        NlMsg {
            netlink_family: NetlinkFamily::default(),
            nlmsghdr: Nlmsghdr::default(),
            nlmsg: NlMsgEnum::default(),
        }
    }
}

/// What a packet `data`, captured on a host of byte order `order`, decodes
/// to: the cooked header at offset 0, the Netlink header at 16, and at 32
/// the body that the header's type calls for. The header's length is taken
/// as the offset at which the body's attributes end.
///
/// A header that does not decode fails the packet; a body that does not is
/// `Malformed`.
pub open spec fn nlmsg_at(data: Seq<u8>, order: Endian) -> Result<NlMsgView, DecodeError> {
    match cooked_header_at(data, 0) {
        Err(e) => Err(e),
        Ok(cooked) => match nlmsghdr_at(
            data,
            COOKED_HEADER_SIZE as int,
            order,
            cooked.netlink_family,
        ) {
            Err(e) => Err(e),
            Ok(nlmsghdr) => Ok(
                NlMsgView {
                    netlink_family: cooked.netlink_family,
                    nlmsghdr,
                    nlmsg: body_at(
                        data,
                        COOKED_HEADER_SIZE + NLMSG_HEADER_SIZE,
                        nlmsghdr.nlmsg_len as int,
                        order,
                        nlmsghdr.nlmsg_type,
                    ),
                },
            ),
        },
    }
}

/// Where the cursor rests after a packet was decoded.
pub open spec fn nlmsg_end(data: Seq<u8>, order: Endian) -> int {
    match cooked_header_at(data, 0) {
        Err(e) => e.resting_offset(),
        Ok(cooked) => match nlmsghdr_at(
            data,
            COOKED_HEADER_SIZE as int,
            order,
            cooked.netlink_family,
        ) {
            Err(e) => e.resting_offset(),
            Ok(nlmsghdr) => body_end(
                data,
                COOKED_HEADER_SIZE + NLMSG_HEADER_SIZE,
                nlmsghdr.nlmsg_len as int,
                order,
                nlmsghdr.nlmsg_type,
            ),
        },
    }
}

impl NlMsg {
    /// Decodes the packet `data`, taking the byte order of this machine as
    /// that of the host that captured it.
    pub fn read(data: &[u8]) -> (r: Result<NlMsg, DecodeError>)
        requires
            data@.len() + 3 <= usize::MAX,
        ensures
            outcome(r) == nlmsg_at(data@, Endian::Little) || outcome(r) == nlmsg_at(
                data@,
                Endian::Big,
            ),
    {
        let mut cursor = Cursor::new(data);
        NlMsg::read_from(&mut cursor)
    }

    /// Decodes the packet `data`, captured on a host of byte order `order`.
    pub fn read_with_order(data: &[u8], order: Endian) -> (r: Result<NlMsg, DecodeError>)
        requires
            data@.len() + 3 <= usize::MAX,
        ensures
            outcome(r) == nlmsg_at(data@, order),
    {
        let mut cursor = Cursor::with_order(data, order);
        NlMsg::read_from(&mut cursor)
    }

    /// Decodes the packet under a cursor that stands at its start, in the
    /// cursor's host byte order.
    pub fn read_from(cursor: &mut Cursor) -> (r: Result<NlMsg, DecodeError>)
        requires
            old(cursor).position() == 0,
        ensures
            outcome(r) == nlmsg_at(old(cursor).bytes(), old(cursor).native_order()),
            final(cursor).moved_to(
                *old(cursor),
                nlmsg_end(old(cursor).bytes(), old(cursor).native_order()),
            ),
    {
        let cooked = CookedHeader::read(cursor)?;
        let nlmsghdr = Nlmsghdr::read(cursor, cooked.netlink_family)?;
        let nlmsg = NlMsgEnum::read(cursor, nlmsghdr.nlmsg_type, nlmsghdr.nlmsg_len as usize);
        Ok(NlMsg { netlink_family: cooked.netlink_family, nlmsghdr, nlmsg })
    }

    /// Moves the cursor forward to the next multiple of [`NLMSG_ALIGNTO`], or
    /// leaves it where it is if it stands on one.
    pub fn nlmsg_align(cursor: &mut Cursor)
        requires
            old(cursor).position() + 3 <= usize::MAX,
        ensures
            final(cursor).moved_to(*old(cursor), align4(old(cursor).position() as int)),
    {
        let pos = cursor.position();
        let bumped: u64 = pos as u64 + (NLMSG_ALIGNTO - 1);
        let next: u64 = bumped & !(NLMSG_ALIGNTO - 1);
        assert(bumped & !3u64 == bumped - bumped % 4) by (bit_vector);
        cursor.set_position(next as usize);
    }
}

/// How a cooked header is written at the level `indent`: its fields, one to a
/// line, between braces; the address as a list of bytes in decimal.
pub open spec fn cooked_header_text(m: CookedHeader, indent: int) -> Seq<char> {
    "{\n"@
        + indent_text(indent)
        + "    header_type: "@
        + dec_text(m.header_type as nat)
        + ",\n"@
        + indent_text(indent)
        + "    arphdr_type: "@
        + dec_text(m.arphdr_type as nat)
        + ",\n"@
        + indent_text(indent)
        + "    address_length: "@
        + dec_text(m.address_length as nat)
        + ",\n"@
        + indent_text(indent)
        + "    address = ["@
        + byte_list_text(m.address@, false)
        + " ]\n"@
        + indent_text(indent)
        + "    netlink_family: "@
        + m.netlink_family.spec_name()
        + ",\n"@
        + indent_text(indent)
        + "}"@
}

impl CookedHeader {
    /// The value as text, at the level `indent`.
    pub fn to_text(&self, indent: i32) -> (s: String)
        ensures
            s@ == cooked_header_text(*self, indent as int),
    {
        let i_s = format_indent(indent);
        let mut s = "{\n".to_owned();
        s.append(i_s.as_str());
        s.append("    header_type: ");
        push_dec(&mut s, self.header_type as u64);
        s.append(",\n");
        s.append(i_s.as_str());
        s.append("    arphdr_type: ");
        push_dec(&mut s, self.arphdr_type as u64);
        s.append(",\n");
        s.append(i_s.as_str());
        s.append("    address_length: ");
        push_dec(&mut s, self.address_length as u64);
        s.append(",\n");
        s.append(i_s.as_str());
        s.append("    address = [");
        s.append(byte_list(self.address.as_slice(), false).as_str());
        s.append(" ]\n");
        s.append(i_s.as_str());
        s.append("    netlink_family: ");
        s.append(self.netlink_family.name());
        s.append(",\n");
        s.append(i_s.as_str());
        s.append("}");
        s
    }

    /// Appends the value as text, at the level `indent`.
    pub fn pretty_fmt(&self, f: &mut String, indent: i32)
        ensures
            final(f)@ == old(f)@ + cooked_header_text(*self, indent as int),
    {
        f.append(self.to_text(indent).as_str());
    }
}

/// How a message type is written: the variant, and in brackets the name of
/// the type or, for a number that no table lists, the number.
pub open spec fn msg_type_text(t: NlMsgTypeEnum) -> Seq<char> {
    match t {
        NlMsgTypeEnum::Raw(n) => "Raw("@ + dec_text(n as nat) + ")"@,
        NlMsgTypeEnum::NlMsgType(t) => "NlMsgType("@ + t.spec_name() + ")"@,
        NlMsgTypeEnum::NrMsgType(t) => "NrMsgType("@ + t.spec_name() + ")"@,
    }
}

impl NlMsgTypeEnum {
    /// The message type as text.
    pub fn to_text(&self) -> (s: String)
        ensures
            s@ == msg_type_text(*self),
    {
        match self {
            NlMsgTypeEnum::Raw(n) => {
                let mut s = "Raw(".to_owned();
                push_dec(&mut s, *n as u64);
                s.append(")");
                s
            },
            NlMsgTypeEnum::NlMsgType(t) => {
                let mut s = "NlMsgType(".to_owned();
                s.append(t.name());
                s.append(")");
                s
            },
            NlMsgTypeEnum::NrMsgType(t) => {
                let mut s = "NrMsgType(".to_owned();
                s.append(t.name());
                s.append(")");
                s
            },
        }
    }
}

/// How a message header is written at the level `indent`: its fields, one to
/// a line, between braces.
pub open spec fn nlmsghdr_text(m: Nlmsghdr, indent: int) -> Seq<char> {
    "{\n"@
        + indent_text(indent)
        + "    nlmsg_len: "@
        + dec_text(m.nlmsg_len as nat)
        + ",\n"@
        + indent_text(indent)
        + "    nlmsg_type: "@
        + msg_type_text(m.nlmsg_type)
        + ",\n"@
        + indent_text(indent)
        + "    nlmsg_flags: "@
        + hex_text(m.nlmsg_flags as nat)
        + ",\n"@
        + indent_text(indent)
        + "    nlmsg_seq: "@
        + dec_text(m.nlmsg_seq as nat)
        + ",\n"@
        + indent_text(indent)
        + "    nlmsg_pid: "@
        + dec_text(m.nlmsg_pid as nat)
        + ",\n"@
        + indent_text(indent)
        + "}"@
}

impl Nlmsghdr {
    /// The value as text, at the level `indent`.
    pub fn to_text(&self, indent: i32) -> (s: String)
        ensures
            s@ == nlmsghdr_text(*self, indent as int),
    {
        let i_s = format_indent(indent);
        let mut s = "{\n".to_owned();
        s.append(i_s.as_str());
        s.append("    nlmsg_len: ");
        push_dec(&mut s, self.nlmsg_len as u64);
        s.append(",\n");
        s.append(i_s.as_str());
        s.append("    nlmsg_type: ");
        s.append(self.nlmsg_type.to_text().as_str());
        s.append(",\n");
        s.append(i_s.as_str());
        s.append("    nlmsg_flags: ");
        push_hex(&mut s, self.nlmsg_flags as u64);
        s.append(",\n");
        s.append(i_s.as_str());
        s.append("    nlmsg_seq: ");
        push_dec(&mut s, self.nlmsg_seq as u64);
        s.append(",\n");
        s.append(i_s.as_str());
        s.append("    nlmsg_pid: ");
        push_dec(&mut s, self.nlmsg_pid as u64);
        s.append(",\n");
        s.append(i_s.as_str());
        s.append("}");
        s
    }

    /// Appends the value as text, at the level `indent`.
    pub fn pretty_fmt(&self, f: &mut String, indent: i32)
        ensures
            final(f)@ == old(f)@ + nlmsghdr_text(*self, indent as int),
    {
        f.append(self.to_text(indent).as_str());
    }
}

/// How a message body is written at the level `indent`: the variant, and for
/// a decoded body the body in brackets, a level deeper.
pub open spec fn body_text(body: NlMsgEnumView, indent: int) -> Seq<char> {
    match body {
        NlMsgEnumView::NoBody => "None"@,
        NlMsgEnumView::Unsupported => "Unsupported"@,
        NlMsgEnumView::Malformed => "Malformed"@,
        NlMsgEnumView::Ifinfomsg(m) => "Ifinfomsg("@ + ifinfomsg_text(m, indent + 1) + ")"@,
        NlMsgEnumView::Ifaddrmsg(m) => "Ifaddrmsg("@ + ifaddrmsg_text(m, indent + 1) + ")"@,
        NlMsgEnumView::Rtmsg(m) => "Rtmsg("@ + rtmsg_text(m, indent + 1) + ")"@,
        NlMsgEnumView::Ndmsg(m) => "Ndmsg("@ + ndmsg_text(m, indent + 1) + ")"@,
        NlMsgEnumView::Tcmsg(m) => "Tcmsg("@ + tcmsg_text(m, indent + 1) + ")"@,
    }
}

impl NlMsgEnum {
    /// The body as text, at the level `indent`.
    pub fn to_text(&self, indent: i32) -> (s: String)
        requires
            indent < i32::MAX - 1,
        ensures
            s@ == body_text(self@, indent as int),
    {
        // Take care of the simple cases first
        let (mut s, inner) = match self {
            NlMsgEnum::NoBody => {
                return "None".to_owned();
            },
            NlMsgEnum::Unsupported => {
                return "Unsupported".to_owned();
            },
            NlMsgEnum::Malformed => {
                return "Malformed".to_owned();
            },
            NlMsgEnum::Ifinfomsg(u) => ("Ifinfomsg(".to_owned(), u.to_text(indent + 1)),
            NlMsgEnum::Ifaddrmsg(u) => ("Ifaddrmsg(".to_owned(), u.to_text(indent + 1)),
            NlMsgEnum::Rtmsg(u) => ("Rtmsg(".to_owned(), u.to_text(indent + 1)),
            NlMsgEnum::Ndmsg(u) => ("Ndmsg(".to_owned(), u.to_text(indent + 1)),
            NlMsgEnum::Tcmsg(u) => ("Tcmsg(".to_owned(), u.to_text(indent + 1)),
        };
        s.append(inner.as_str());
        s.append(")");
        s
    }

    /// Appends the body as text, at the level `indent`.
    pub fn pretty_fmt(&self, f: &mut String, indent: i32)
        requires
            indent < i32::MAX - 1,
        ensures
            final(f)@ == old(f)@ + body_text(self@, indent as int),
    {
        f.append(self.to_text(indent).as_str());
    }
}

/// How a decoded packet is written at the level `indent`: the family, the
/// header a level deeper, and the body as at the outermost level; the
/// closing brace stands at the start of its line.
pub open spec fn nlmsg_text(m: NlMsgView, indent: int) -> Seq<char> {
    "{\n"@
        + indent_text(indent)
        + "    netlink_family: "@
        + m.netlink_family.spec_name()
        + "\n"@
        + indent_text(indent)
        + "    nlmsghdr: "@
        + nlmsghdr_text(m.nlmsghdr, indent + 1)
        + "\n"@
        + indent_text(indent)
        + "    nlmsg: "@
        + body_text(m.nlmsg, 0)
        + "\n}"@
}

impl NlMsg {
    /// The value as text, at the level `indent`.
    pub fn to_text(&self, indent: i32) -> (s: String)
        requires
            indent < i32::MAX,
        ensures
            s@ == nlmsg_text(self@, indent as int),
    {
        let i_s = format_indent(indent);
        let mut s = "{\n".to_owned();
        s.append(i_s.as_str());
        s.append("    netlink_family: ");
        s.append(self.netlink_family.name());
        s.append("\n");
        s.append(i_s.as_str());
        s.append("    nlmsghdr: ");
        s.append(self.nlmsghdr.to_text(indent + 1).as_str());
        s.append("\n");
        s.append(i_s.as_str());
        s.append("    nlmsg: ");
        s.append(self.nlmsg.to_text(0).as_str());
        s.append("\n}");
        s
    }

    /// Appends the value as text, at the level `indent`.
    pub fn pretty_fmt(&self, f: &mut String, indent: i32)
        requires
            indent < i32::MAX,
        ensures
            final(f)@ == old(f)@ + nlmsg_text(self@, indent as int),
    {
        f.append(self.to_text(indent).as_str());
    }
}

} // verus!
