use uscsi::Flags;
use uscsi::Region;
use uscsi::ScsiError;
use uscsi::UScsiCmd;
use uscsi::cmd::USCSICMD;
use uscsi::cmd::USCSIIOC;
use uscsi::cmd::USCSIMAXXFER;
use uscsi::cmd::common_cmd;
use uscsi::flags::READ;
use uscsi::flags::RESET;
use uscsi::flags::RQENABLE;
use uscsi::flags::SILENT;
use uscsi::ops::cmd_result;
use uscsi::ops::max_xfer_result;
use uscsi::ops::read_cmd;
use uscsi::ops::reset_cmd;
use uscsi::ops::reset_result;
use uscsi::ops::write_cmd;

fn cdb_region() -> Region {
    Region { addr: 0x1000, len: 6 }
}

fn data_region() -> Region {
    Region { addr: 0x2000, len: 512 }
}

#[test]
fn control_codes() {
    assert_eq!(USCSIIOC, 0x04 << 8);
    assert_eq!(USCSICMD, (0x04 << 8) | 201);
    assert_eq!(USCSIMAXXFER, (0x04 << 8) | 202);
}

#[test]
fn default_descriptor_is_all_zero() {
    let c = UScsiCmd::default();
    assert_eq!(c.flags, 0);
    assert_eq!(c.status, 0);
    assert_eq!(c.timeout, 0);
    assert_eq!(c.cdb, 0);
    assert_eq!(c.bufaddr, 0);
    assert_eq!(c.buflen, 0);
    assert_eq!(c.resid, 0);
    assert_eq!(c.cdblen, 0);
    assert_eq!(c.rqlen, 0);
    assert_eq!(c.rqstatus, 0);
    assert_eq!(c.rqresid, 0);
    assert_eq!(c.rqbuf, 0);
    assert_eq!(c.path_instance, 0);
}

#[test]
fn read_always_sets_read_bit() {
    let c = read_cmd(cdb_region(), data_region(), None, Flags::empty(), 30);
    assert_ne!(c.flags & READ, 0);

    let f = Flags::from_bits(SILENT | RQENABLE);
    let c = read_cmd(cdb_region(), data_region(), None, f, 30);
    assert_ne!(c.flags & READ, 0);
    assert_eq!(c.flags, SILENT | RQENABLE | READ);
}

#[test]
fn write_always_clears_read_bit() {
    let f = Flags::from_bits(READ | SILENT);
    let c = write_cmd(cdb_region(), data_region(), None, f, 30);
    assert_eq!(c.flags & READ, 0);
    assert_eq!(c.flags, SILENT);

    let c = write_cmd(cdb_region(), data_region(), None, Flags::empty(), 30);
    assert_eq!(c.flags, 0);
}

#[test]
fn descriptor_carries_regions_and_timeout() {
    let c = read_cmd(cdb_region(), data_region(), None, Flags::empty(), 45);
    assert_eq!(c.cdb, 0x1000);
    assert_eq!(c.cdblen, 6);
    assert_eq!(c.bufaddr, 0x2000);
    assert_eq!(c.buflen, 512);
    assert_eq!(c.timeout, 45);
    assert_eq!(c.status, 0);
    assert_eq!(c.resid, 0);
    assert_eq!(c.rqstatus, 0);
    assert_eq!(c.rqresid, 0);
    assert_eq!(c.path_instance, 0);
}

#[test]
fn sense_buffer_sets_auto_sense_bit_and_fields() {
    let sense = Region { addr: 0x3000, len: 64 };
    let c = common_cmd(cdb_region(), data_region(), Some(sense), Flags::empty(), 30);
    assert_ne!(c.flags & RQENABLE, 0);
    assert_eq!(c.rqbuf, 0x3000);
    assert_eq!(c.rqlen, 64);
}

#[test]
fn no_sense_buffer_zeroes_fields_and_keeps_flags() {
    let c = common_cmd(cdb_region(), data_region(), None, Flags::from_bits(SILENT), 30);
    assert_eq!(c.rqbuf, 0);
    assert_eq!(c.rqlen, 0);
    assert_eq!(c.flags, SILENT);

    let c = common_cmd(
        cdb_region(),
        data_region(),
        None,
        Flags::from_bits(SILENT | RQENABLE),
        30,
    );
    assert_eq!(c.flags, SILENT | RQENABLE);
}

#[test]
fn sense_length_over_255_loses_information() {
    let sense = Region { addr: 0x3000, len: 300 };
    let c = common_cmd(cdb_region(), data_region(), Some(sense), Flags::empty(), 30);
    assert_eq!(c.rqlen, 300u16 as u8);
    assert_eq!(c.rqlen, 44);
}

#[test]
fn cdb_length_300_truncates_to_255() {
    let cdb = Region { addr: 0x1000, len: 300 };
    let c = read_cmd(cdb, data_region(), None, Flags::empty(), 30);
    assert_eq!(c.cdblen, 255);

    let cdb = Region { addr: 0x1000, len: 256 };
    let c = read_cmd(cdb, data_region(), None, Flags::empty(), 30);
    assert_eq!(c.cdblen, 255);

    let cdb = Region { addr: 0x1000, len: 255 };
    let c = read_cmd(cdb, data_region(), None, Flags::empty(), 30);
    assert_eq!(c.cdblen, 255);
}

#[test]
fn timeout_over_32767_goes_negative() {
    let c = common_cmd(cdb_region(), data_region(), None, Flags::empty(), 40000);
    assert_eq!(c.timeout, 40000u16 as i16);
    assert_eq!(c.timeout, -25536);

    let c = common_cmd(cdb_region(), data_region(), None, Flags::empty(), 32767);
    assert_eq!(c.timeout, 32767);
}

#[test]
fn success_yields_kernel_filled_residual_pair() {
    let mut c = read_cmd(cdb_region(), data_region(), None, Flags::empty(), 30);
    c.resid = 7;
    c.rqresid = 3;
    assert_eq!(cmd_result(&c, 0, 0), Ok((7, 3)));
}

#[test]
fn failure_yields_last_os_error_code() {
    let mut c = read_cmd(cdb_region(), data_region(), None, Flags::empty(), 30);
    c.resid = 7;
    assert_eq!(cmd_result(&c, -1, 13), Err(ScsiError { code: 13 }));
}

#[test]
fn reset_descriptor_has_only_the_reset_bit() {
    let c = reset_cmd();
    assert_eq!(c.flags, RESET);
    assert_eq!(c.status, 0);
    assert_eq!(c.timeout, 0);
    assert_eq!(c.cdb, 0);
    assert_eq!(c.bufaddr, 0);
    assert_eq!(c.buflen, 0);
    assert_eq!(c.resid, 0);
    assert_eq!(c.cdblen, 0);
    assert_eq!(c.rqlen, 0);
    assert_eq!(c.rqstatus, 0);
    assert_eq!(c.rqresid, 0);
    assert_eq!(c.rqbuf, 0);
    assert_eq!(c.path_instance, 0);
}

#[test]
fn reset_completion_maps_signal() {
    assert_eq!(reset_result(0, 0), Ok(()));
    assert_eq!(reset_result(-1, 9), Err(ScsiError { code: 9 }));
}

#[test]
fn max_xfer_success_returns_exact_value() {
    assert_eq!(max_xfer_result(0, 0x0102_0304, 0), Ok(0x0102_0304));
    assert_eq!(max_xfer_result(0, 1 << 40, 0), Ok(1usize << 40));
}

#[test]
fn max_xfer_failure_returns_os_code() {
    assert_eq!(max_xfer_result(-1, 0, 22), Err(ScsiError { code: 22 }));
}
