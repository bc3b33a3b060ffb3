use vstd::prelude::*;

use crate::cmd::Region;
use crate::cmd::UScsiCmd;
use crate::cmd::common_cmd;
use crate::cmd::spec_common_cmd;
use crate::flags::Flags;
use crate::flags::READ;
use crate::flags::RESET;
use crate::flags::WRITE;

verus! {

/// The one error of this layer: an OS-level submission failure, carrying the
/// operating system's last recorded error code for the calling context.
#[derive(Clone, Copy, Debug, PartialEq, Eq, Structural)]
pub struct ScsiError {
    pub code: i32,
}

/// Build the descriptor for a read: the READ direction bit is forced on,
/// whatever the caller-supplied flags hold, and the data region is the
/// destination the kernel writes into during the call.
pub fn read_cmd(
    cdb: Region,
    data: Region,
    sense: Option<Region>,
    flags: Flags,
    timeout: u16,
) -> (c: UScsiCmd)
    ensures
        c == spec_common_cmd(cdb, data, sense, flags.spec_bits() | READ, timeout),
        c.flags & READ == READ,
{
    let c = common_cmd(cdb, data, sense, flags.union(Flags::from_bits(READ)), timeout);
    proof {
        let f: i32 = flags.spec_bits();
        assert((f | READ) & READ == READ) by (bit_vector);
        assert(((f | READ) | crate::flags::RQENABLE) & READ == READ) by (bit_vector);
    }
    c
}

/// Build the descriptor for a write: the WRITE direction is forced, that is
/// the READ bit is cleared whatever the caller-supplied flags hold, and the
/// data region is the source the kernel reads from during the call.
pub fn write_cmd(
    cdb: Region,
    data: Region,
    sense: Option<Region>,
    flags: Flags,
    timeout: u16,
) -> (c: UScsiCmd)
    ensures
        c == spec_common_cmd(cdb, data, sense, (flags.spec_bits() | WRITE) & !READ, timeout),
        c.flags & READ == 0,
{
    let dir = Flags::from_bits((flags.union(Flags::from_bits(WRITE)).bits()) & !READ);
    let c = common_cmd(cdb, data, sense, dir, timeout);
    proof {
        let f: i32 = flags.spec_bits();
        assert(((f | WRITE) & !READ) & READ == 0) by (bit_vector);
        assert((((f | WRITE) & !READ) | crate::flags::RQENABLE) & READ == 0) by (bit_vector);
    }
    c
}

/// Build the descriptor for a target reset: every field zero except the flags
/// field, which holds exactly the RESET bit. No CDB, data or sense field is
/// populated.
pub fn reset_cmd() -> (c: UScsiCmd)
    ensures
        c.flags == RESET,
        c.status == 0,
        c.timeout == 0,
        c.cdb == 0,
        c.bufaddr == 0,
        c.buflen == 0,
        c.resid == 0,
        c.cdblen == 0,
        c.rqlen == 0,
        c.rqstatus == 0,
        c.rqresid == 0,
        c.rqbuf == 0,
        c.path_instance == 0,
{
    let mut c = UScsiCmd::default();
    c.flags = Flags::from_bits(RESET).bits();
    c
}

/// Map the kernel's completion of a submitted command. A zero completion
/// signal is success and yields exactly the kernel-filled residual pair: the
/// data bytes not transferred and the sense bytes not transferred. A non-zero
/// signal yields the error carrying the given OS error code, and nothing of
/// the descriptor is exposed.
pub fn cmd_result(c: &UScsiCmd, signal: i32, os_code: i32) -> (r: Result<
    (usize, usize),
    ScsiError,
>)
    ensures
        signal == 0 ==> r == Ok::<(usize, usize), ScsiError>((c.resid, c.rqresid as usize)),
        signal != 0 ==> r == Err::<(usize, usize), ScsiError>(ScsiError { code: os_code }),
{
    if signal == 0 {
        Ok((c.resid, c.rqresid as usize))
    } else {
        Err(ScsiError { code: os_code })
    }
}

/// Map the kernel's completion of a reset submission: a zero signal is plain
/// success, a non-zero signal the error carrying the given OS error code.
pub fn reset_result(signal: i32, os_code: i32) -> (r: Result<(), ScsiError>)
    ensures
        signal == 0 ==> r == Ok::<(), ScsiError>(()),
        signal != 0 ==> r == Err::<(), ScsiError>(ScsiError { code: os_code }),
{
    if signal == 0 {
        Ok(())
    } else {
        Err(ScsiError { code: os_code })
    }
}

/// Map the kernel's completion of a max-transfer query: a zero signal yields
/// exactly the unsigned 64-bit value the kernel wrote, as the maximum
/// transfer size; a non-zero signal the error carrying the given OS error
/// code. The query incurs no device I/O, so no residuals accompany it.
pub fn max_xfer_result(signal: i32, val: u64, os_code: i32) -> (r: Result<usize, ScsiError>)
    ensures
        signal == 0 ==> r == Ok::<usize, ScsiError>(val as usize),
        signal != 0 ==> r == Err::<usize, ScsiError>(ScsiError { code: os_code }),
{
    if signal == 0 {
        Ok(#[verifier::truncate] (val as usize))
    } else {
        Err(ScsiError { code: os_code })
    }
}

} // verus!
