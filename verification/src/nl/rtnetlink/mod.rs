//! The routing family: its tables of constants, its attribute record and
//! its five message bodies.

pub mod addr;
pub mod addr_tables;
pub mod attr;
pub mod link;
pub mod link_tables;
pub mod msg_type;
pub mod neigh;
pub mod neigh_tables;
pub mod route;
pub mod route_tables;
pub mod tc;
pub mod tc_tables;

pub use self::addr::{Ifaddrmsg, IfaddrmsgView};
pub use self::addr_tables::{Ifa, IfaFlags};
pub use self::attr::{Rtattr, RtattrView};
pub use self::link::{Ifinfomsg, IfinfomsgView};
pub use self::link_tables::{AddressFamily, Ifla, NetDeviceFlags};
pub use self::msg_type::NrMsgType;
pub use self::neigh::{NdaCacheinfo, Ndmsg, NdmsgView};
pub use self::neigh_tables::{NdAttr, NdFlags, NdState};
pub use self::route::{Rtmsg, RtmsgView};
pub use self::route_tables::{RtScope, RtTable, RtmAttr, RtmFlags, Rtn, Rtprot};
pub use self::tc::{Tcmsg, TcmsgView};
pub use self::tc_tables::TcAttr;
