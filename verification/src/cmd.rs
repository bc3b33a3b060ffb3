use vstd::prelude::*;

use crate::flags::Flags;
use crate::flags::RQENABLE;

verus! {

/// The ioctl request-code group of the passthrough driver.
pub const USCSIIOC: u64 = 0x04u64 << 8;
/// The ioctl request code that submits a command descriptor.
pub const USCSICMD: u64 = USCSIIOC | 201;
/// The ioctl request code that queries the maximum transfer size.
pub const USCSIMAXXFER: u64 = USCSIIOC | 202;

/// A borrowed raw region: the start address and length of a caller-owned
/// buffer. The caller keeps ownership; the address must stay valid and the
/// buffer unmoved for the duration of the one submission the region is built
/// for, because the kernel reads or writes through the raw address during the
/// blocking call.
#[derive(Clone, Copy, Debug, PartialEq, Eq, Structural)]
pub struct Region {
    pub addr: usize,
    pub len: usize,
}

/// The command descriptor: the request record the kernel understands bit for
/// bit. Field order and widths mirror the driver ABI; the exact-layout copy
/// handed to the kernel must keep this order with C layout rules. The status,
/// resid, rqstatus and rqresid fields are kernel-filled and are submitted as
/// zero.
#[derive(Clone, Copy, Debug, PartialEq, Eq, Structural)]
pub struct UScsiCmd {
    /// Combined request-modifier bits.
    pub flags: i32,
    /// Kernel-filled completion status.
    pub status: i16,
    /// Command timeout in seconds, truncated from the caller's unsigned input.
    pub timeout: i16,
    /// Address of the caller's CDB byte buffer.
    pub cdb: usize,
    /// Address of the caller's data buffer, 0 when there is no data phase.
    pub bufaddr: usize,
    /// Length of the data buffer.
    pub buflen: usize,
    /// Kernel-filled: data bytes not transferred.
    pub resid: usize,
    /// Length of the CDB, truncated from the caller's slice length.
    pub cdblen: u8,
    /// Length of the sense buffer, 0 when none is supplied.
    pub rqlen: u8,
    /// Kernel-filled: sense-retrieval status.
    pub rqstatus: u8,
    /// Kernel-filled: sense bytes not transferred.
    pub rqresid: u8,
    /// Address of the caller's sense buffer, 0 when none is supplied.
    pub rqbuf: usize,
    /// Target path instance; unused and zero in the current operations.
    pub path_instance: u64,
}

impl UScsiCmd {
    /// The all-zero descriptor.
    pub open spec fn spec_zeroed() -> UScsiCmd {
        UScsiCmd {
            flags: 0,
            status: 0,
            timeout: 0,
            cdb: 0,
            bufaddr: 0,
            buflen: 0,
            resid: 0,
            cdblen: 0,
            rqlen: 0,
            rqstatus: 0,
            rqresid: 0,
            rqbuf: 0,
            path_instance: 0,
        }
    }
}

impl Default for UScsiCmd {
    /// The all-zero descriptor.
    fn default() -> (r: UScsiCmd)
        ensures
            r == UScsiCmd::spec_zeroed(),
    {
        UScsiCmd {
            flags: 0,
            status: 0,
            timeout: 0,
            cdb: 0,
            bufaddr: 0,
            buflen: 0,
            resid: 0,
            cdblen: 0,
            rqlen: 0,
            rqstatus: 0,
            rqresid: 0,
            rqbuf: 0,
            path_instance: 0,
        }
    }
}

/// The CDB length field of a descriptor built for a CDB of the given length:
/// lengths over 255 are truncated to 255.
pub open spec fn spec_cdblen(len: usize) -> u8 {
    if len > 255 {
        255u8
    } else {
        len as u8
    }
}

/// The descriptor that one submission with the given inputs carries: the
/// flags' raw form (with the auto-sense-request bit forced on when a sense
/// region is supplied), the timeout truncated to a signed 16-bit field, the
/// CDB and data regions, the sense region (absent: address and length zero),
/// and every kernel-filled field zero.
pub open spec fn spec_common_cmd(
    cdb: Region,
    data: Region,
    sense: Option<Region>,
    fbits: i32,
    timeout: u16,
) -> UScsiCmd {
    UScsiCmd {
        flags: if sense is Some {
            fbits | RQENABLE
        } else {
            fbits
        },
        status: 0,
        timeout: timeout as i16,
        cdb: cdb.addr,
        bufaddr: data.addr,
        buflen: data.len,
        resid: 0,
        cdblen: spec_cdblen(cdb.len),
        rqlen: if sense is Some {
            sense->Some_0.len as u8
        } else {
            0u8
        },
        rqstatus: 0,
        rqresid: 0,
        rqbuf: if sense is Some {
            sense->Some_0.addr
        } else {
            0usize
        },
        path_instance: 0,
    }
}

/// Build the descriptor for one command submission. Supplying a sense region
/// forces the auto-sense-request bit on and records the region's address and
/// length (truncated to 8 bits); omitting it zeroes both and leaves the
/// auto-sense bit as the caller gave it. The CDB length is truncated to 255
/// and the timeout to a signed 16-bit value: neither hazard is detected, both
/// are caller obligations.
pub fn common_cmd(
    cdb: Region,
    data: Region,
    sense: Option<Region>,
    flags: Flags,
    timeout: u16,
) -> (c: UScsiCmd)
    ensures
        c == spec_common_cmd(cdb, data, sense, flags.spec_bits(), timeout),
        sense is Some ==> c.flags & RQENABLE == RQENABLE,
        sense is Some ==> c.rqbuf == sense->Some_0.addr && c.rqlen == sense->Some_0.len as u8,
        sense is None ==> c.flags == flags.spec_bits() && c.rqbuf == 0 && c.rqlen == 0,
        cdb.len > 255 ==> c.cdblen == 255,
        cdb.len <= 255 ==> c.cdblen == cdb.len as u8,
{
    let (rqflags, rqbuf, rqlen): (Flags, usize, u8) = match sense {
        Some(s) => (
            flags.union(Flags::from_bits(RQENABLE)),
            s.addr,
            #[verifier::truncate] (s.len as u8),
        ),
        None => (flags, 0, 0),
    };
    let cdblen: u8 = if cdb.len > 255 {
        255
    } else {
        cdb.len as u8
    };
    proof {
        let f: i32 = flags.spec_bits();
        assert((f | RQENABLE) & RQENABLE == RQENABLE) by (bit_vector);
    }
    UScsiCmd {
        flags: rqflags.bits(),
        status: 0,
        timeout: #[verifier::truncate] (timeout as i16),
        cdb: cdb.addr,
        bufaddr: data.addr,
        buflen: data.len,
        resid: 0,
        cdblen,
        rqlen,
        rqstatus: 0,
        rqresid: 0,
        rqbuf,
        path_instance: 0,
    }
}

} // verus!
