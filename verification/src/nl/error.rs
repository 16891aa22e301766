//! Decode failures and the wire fields they point at.

use vstd::prelude::*;

verus! {

/// A field of the wire format, named after the record member it fills.
#[derive(Clone, Copy, Debug, PartialEq, Eq, Structural)]
pub enum Field {
    HeaderType,
    ArphdrType,
    AddressLength,
    Address,
    NetlinkFamily,
    NlmsgLen,
    NlmsgType,
    NlmsgFlags,
    NlmsgSeq,
    NlmsgPid,
    RtaLen,
    RtaType,
    RtaValue,
    IfiFamily,
    IfiPad,
    IfiType,
    IfiIndex,
    IfiFlags,
    IfiChange,
    IfaFamily,
    IfaPrefixlen,
    IfaFlags,
    IfaScope,
    IfaIndex,
    RtmFamily,
    RtmDstLen,
    RtmSrcLen,
    RtmTos,
    RtmTable,
    RtmProtocol,
    RtmScope,
    RtmType,
    RtmFlags,
    NdmFamily,
    NdmPad1,
    NdmPad2,
    NdmIfindex,
    NdmState,
    NdmFlags,
    NdmType,
    CacheinfoConfirmed,
    CacheinfoUsed,
    CacheinfoUpdated,
    CacheinfoFlags,
    TcmFamily,
    TcmPad1,
    TcmPad2,
    TcmIfindex,
    TcmHandle,
    TcmParent,
    TcmInfo,
}

/// Why a decode stopped. Offsets count bytes from the start of the buffer
/// under the cursor.
#[derive(Clone, Copy, Debug, PartialEq, Eq, Structural)]
pub enum DecodeError {
    /// The buffer ends before the last byte of `field`, which starts at `offset`.
    UnexpectedEof { offset: usize, field: Field },
    /// `field`, at `offset`, holds `value`, which its table does not list.
    UnknownValue { offset: usize, field: Field, value: u16 },
    /// The attribute at `offset` declares `length`, less than its own header.
    BadLength { offset: usize, length: u16 },
}

impl DecodeError {
    /// Where the failing field starts.
    pub open spec fn spec_offset(self) -> usize {
        match self {
            DecodeError::UnexpectedEof { offset, .. } => offset,
            DecodeError::UnknownValue { offset, .. } => offset,
            DecodeError::BadLength { offset, .. } => offset,
        }
    }

    /// How many bytes of the failing record had been consumed when the
    /// failure was found: none on a short buffer, the field itself for an
    /// unlisted value, the attribute header for a bad length.
    pub open spec fn consumed(self) -> int {
        match self {
            DecodeError::UnexpectedEof { .. } => 0,
            DecodeError::UnknownValue { field, .. } => if field == Field::RtaType {
                2
            } else if field == Field::NetlinkFamily {
                2
            } else {
                1
            },
            DecodeError::BadLength { .. } => 4,
        }
    }

    /// Where a cursor rests after a decode that failed with this error.
    pub open spec fn resting_offset(self) -> int {
        self.spec_offset() + self.consumed()
    }

    /// Where the failing field starts.
    pub fn offset(&self) -> (r: usize)
        ensures
            r == self.spec_offset(),
    {
        match self {
            DecodeError::UnexpectedEof { offset, .. } => *offset,
            DecodeError::UnknownValue { offset, .. } => *offset,
            DecodeError::BadLength { offset, .. } => *offset,
        }
    }
}

/// The outcome of a decode as a mathematical value.
pub open spec fn outcome<T: View>(r: Result<T, DecodeError>) -> Result<T::V, DecodeError> {
    match r {
        Ok(v) => Ok(v@),
        Err(e) => Err(e),
    }
}

/// The failure of a read of `field` at `at` for want of bytes.
pub open spec fn short_at(at: int, field: Field) -> DecodeError {
    DecodeError::UnexpectedEof { offset: at as usize, field }
}

/// The failure of a lookup of the number `value` found in `field` at `at`.
pub open spec fn unknown_at(at: int, field: Field, value: int) -> DecodeError {
    DecodeError::UnknownValue { offset: at as usize, field, value: value as u16 }
}

} // verus!
