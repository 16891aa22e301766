//! Decoder for Linux Netlink messages of the rtnetlink family, as found in
//! packet captures that wrap each message in a 16-byte cooked header, and
//! the tool that turns the constants of the kernel's headers into tables.
//!
//! Every decoder is a function from the bytes under a cursor to a typed
//! value or a decode error; the contracts state the result as a function of
//! the bytes, the starting offset and the host byte order.

pub mod cenum;
pub mod nl;
