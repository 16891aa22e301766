//! The kernel's own record layouts around Netlink (`linux/netlink.h` and the
//! headers it pulls in), field for field, with the integer widths of the
//! 64-bit Linux ABI. A value from `default()` has every field zero.

use vstd::prelude::*;

verus! {

pub type __s8 = i8;

pub type __u8 = u8;

pub type __s16 = i16;

pub type __u16 = u16;

pub type __s32 = i32;

pub type __u32 = u32;

pub type __s64 = i64;

pub type __u64 = u64;

pub type __kernel_long_t = i64;

pub type __kernel_ulong_t = u64;

pub type __kernel_sa_family_t = u16;

/// `__kernel_fd_set`.
#[allow(non_camel_case_types)]
#[derive(Clone, Copy, Debug)]
pub struct Struct_Unnamed1 {
    pub fds_bits: [u64; 16],
}

impl Default for Struct_Unnamed1 {
    fn default() -> (r: Self)
        ensures
            forall|i: int| 0 <= i < 16 ==> r.fds_bits@[i] == 0,
    {
        Struct_Unnamed1 { fds_bits: [0;16] }
    }
}

/// `__kernel_fsid_t`.
#[allow(non_camel_case_types)]
#[derive(Clone, Copy, Debug)]
pub struct Struct_Unnamed2 {
    pub val: [i32; 2],
}

impl Default for Struct_Unnamed2 {
    fn default() -> (r: Self)
        ensures
            forall|i: int| 0 <= i < 2 ==> r.val@[i] == 0,
    {
        Struct_Unnamed2 { val: [0;2] }
    }
}

/// `struct sysinfo`.
#[allow(non_camel_case_types)]
#[derive(Clone, Copy, Debug)]
pub struct Struct_sysinfo {
    pub uptime: i64,
    pub loads: [u64; 3],
    pub totalram: u64,
    pub freeram: u64,
    pub sharedram: u64,
    pub bufferram: u64,
    pub totalswap: u64,
    pub freeswap: u64,
    pub procs: u16,
    pub pad: u16,
    pub totalhigh: u64,
    pub freehigh: u64,
    pub mem_unit: u32,
    pub _f: [i8; 0],
}

impl Default for Struct_sysinfo {
    fn default() -> (r: Self)
        ensures
            r.uptime == 0,
            forall|i: int| 0 <= i < 3 ==> r.loads@[i] == 0,
            r.totalram == 0,
            r.freeram == 0,
            r.sharedram == 0,
            r.bufferram == 0,
            r.totalswap == 0,
            r.freeswap == 0,
            r.procs == 0,
            r.pad == 0,
            r.totalhigh == 0,
            r.freehigh == 0,
            r.mem_unit == 0,
    {
        Struct_sysinfo {
            uptime: 0,
            loads: [0;3],
            totalram: 0,
            freeram: 0,
            sharedram: 0,
            bufferram: 0,
            totalswap: 0,
            freeswap: 0,
            procs: 0,
            pad: 0,
            totalhigh: 0,
            freehigh: 0,
            mem_unit: 0,
            _f: [],
        }
    }
}

/// `struct sockaddr`, which the headers only name: nothing of it can be read.
#[allow(non_camel_case_types)]
#[derive(Debug)]
pub struct Struct_sockaddr {
    opaque: (),
}

/// `struct __kernel_sockaddr_storage`.
#[allow(non_camel_case_types)]
#[derive(Clone, Copy, Debug)]
pub struct Struct___kernel_sockaddr_storage {
    pub ss_family: u16,
    pub __data: [i8; 126],
}

impl Default for Struct___kernel_sockaddr_storage {
    fn default() -> (r: Self)
        ensures
            r.ss_family == 0,
            forall|i: int| 0 <= i < 126 ==> r.__data@[i] == 0,
    {
        Struct___kernel_sockaddr_storage { ss_family: 0, __data: [0;126] }
    }
}

/// `struct sockaddr_nl`: the address of a Netlink socket.
#[allow(non_camel_case_types)]
#[derive(Clone, Copy, Debug, PartialEq, Eq, Structural)]
pub struct Struct_sockaddr_nl {
    pub nl_family: u16,
    pub nl_pad: u16,
    pub nl_pid: u32,
    pub nl_groups: u32,
}

impl Default for Struct_sockaddr_nl {
    fn default() -> (r: Self)
        ensures
            r == (Struct_sockaddr_nl { nl_family: 0, nl_pad: 0, nl_pid: 0, nl_groups: 0 }),
    {
        Struct_sockaddr_nl { nl_family: 0, nl_pad: 0, nl_pid: 0, nl_groups: 0 }
    }
}

/// `struct nlmsghdr`: the fixed header of a Netlink message, as numbers.
#[allow(non_camel_case_types)]
#[derive(Clone, Copy, Debug, PartialEq, Eq, Structural)]
pub struct Struct_nlmsghdr {
    pub nlmsg_len: u32,
    pub nlmsg_type: u16,
    pub nlmsg_flags: u16,
    pub nlmsg_seq: u32,
    pub nlmsg_pid: u32,
}

impl Default for Struct_nlmsghdr {
    fn default() -> (r: Self)
        ensures
            r == (Struct_nlmsghdr {
                nlmsg_len: 0,
                nlmsg_type: 0,
                nlmsg_flags: 0,
                nlmsg_seq: 0,
                nlmsg_pid: 0,
            }),
    {
        Struct_nlmsghdr { nlmsg_len: 0, nlmsg_type: 0, nlmsg_flags: 0, nlmsg_seq: 0, nlmsg_pid: 0 }
    }
}

/// `struct nlmsgerr`: the payload of an error message.
#[allow(non_camel_case_types)]
#[derive(Clone, Copy, Debug, PartialEq, Eq, Structural)]
pub struct Struct_nlmsgerr {
    pub error: i32,
    pub msg: Struct_nlmsghdr,
}

impl Default for Struct_nlmsgerr {
    fn default() -> (r: Self)
        ensures
            r.error == 0,
            r.msg == (Struct_nlmsghdr {
                nlmsg_len: 0,
                nlmsg_type: 0,
                nlmsg_flags: 0,
                nlmsg_seq: 0,
                nlmsg_pid: 0,
            }),
    {
        Struct_nlmsgerr { error: 0, msg: Struct_nlmsghdr::default() }
    }
}

/// `struct nl_pktinfo`.
#[allow(non_camel_case_types)]
#[derive(Clone, Copy, Debug, PartialEq, Eq, Structural)]
pub struct Struct_nl_pktinfo {
    pub group: u32,
}

impl Default for Struct_nl_pktinfo {
    fn default() -> (r: Self)
        ensures
            r.group == 0,
    {
        Struct_nl_pktinfo { group: 0 }
    }
}

/// `struct nl_mmap_req`.
#[allow(non_camel_case_types)]
#[derive(Clone, Copy, Debug, PartialEq, Eq, Structural)]
pub struct Struct_nl_mmap_req {
    pub nm_block_size: u32,
    pub nm_block_nr: u32,
    pub nm_frame_size: u32,
    pub nm_frame_nr: u32,
}

impl Default for Struct_nl_mmap_req {
    fn default() -> (r: Self)
        ensures
            r == (Struct_nl_mmap_req {
                nm_block_size: 0,
                nm_block_nr: 0,
                nm_frame_size: 0,
                nm_frame_nr: 0,
            }),
    {
        Struct_nl_mmap_req { nm_block_size: 0, nm_block_nr: 0, nm_frame_size: 0, nm_frame_nr: 0 }
    }
}

/// `struct nl_mmap_hdr`.
#[allow(non_camel_case_types)]
#[derive(Clone, Copy, Debug, PartialEq, Eq, Structural)]
pub struct Struct_nl_mmap_hdr {
    pub nm_status: u32,
    pub nm_len: u32,
    pub nm_group: u32,
    pub nm_pid: u32,
    pub nm_uid: u32,
    pub nm_gid: u32,
}

impl Default for Struct_nl_mmap_hdr {
    fn default() -> (r: Self)
        ensures
            r == (Struct_nl_mmap_hdr {
                nm_status: 0,
                nm_len: 0,
                nm_group: 0,
                nm_pid: 0,
                nm_uid: 0,
                nm_gid: 0,
            }),
    {
        Struct_nl_mmap_hdr { nm_status: 0, nm_len: 0, nm_group: 0, nm_pid: 0, nm_uid: 0, nm_gid: 0 }
    }
}

pub const NL_MMAP_STATUS_UNUSED: u32 = 0;

pub const NL_MMAP_STATUS_RESERVED: u32 = 1;

pub const NL_MMAP_STATUS_VALID: u32 = 2;

pub const NL_MMAP_STATUS_COPY: u32 = 3;

pub const NL_MMAP_STATUS_SKIP: u32 = 4;

pub const NETLINK_UNCONNECTED: u32 = 0;

pub const NETLINK_CONNECTED: u32 = 1;

/// `struct nlattr`: the header of a Netlink attribute, as numbers.
#[allow(non_camel_case_types)]
#[derive(Clone, Copy, Debug, PartialEq, Eq, Structural)]
pub struct Struct_nlattr {
    pub nla_len: u16,
    pub nla_type: u16,
}

impl Default for Struct_nlattr {
    fn default() -> (r: Self)
        ensures
            r == (Struct_nlattr { nla_len: 0, nla_type: 0 }),
    {
        Struct_nlattr { nla_len: 0, nla_type: 0 }
    }
}

} // verus!
