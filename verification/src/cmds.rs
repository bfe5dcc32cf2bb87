//! Command/response engine: builds 64-byte command frames, performs one
//! write+read exchange through a caller-supplied transport, validates the
//! echoed command code, maps the response status byte to an outcome, and
//! exposes each chip operation as one such exchange plus a typed decode. The
//! chunked SPI transfer driver sits on top of the single-frame transfer.
//!
//! Every operation takes the response scratch buffer from the caller, so its
//! contract can pin the result to the very frame the exchange left behind;
//! and every command frame is assembled only from [`command_frame`] and the
//! contracted field writers, so the bytes handed to the transport are fixed
//! by contracts end to end.

use vstd::prelude::*;
use vstd::slice::slice_subrange;

use crate::types::chip_settings_bytes_valid;
use crate::types::chip_settings_decode_error;
use crate::types::chip_settings_of_bytes;
use crate::types::chip_status_bytes_valid;
use crate::types::chip_status_decode_error;
use crate::types::chip_status_of_bytes;
use crate::types::lemma_u16_split_join;
use crate::types::spi_transfer_settings_bytes_valid;
use crate::types::spi_transfer_settings_of_bytes;
use crate::types::usb_parameters_bytes_valid;
use crate::types::usb_parameters_of_bytes;
use crate::types::ChipSettings;
use crate::types::ChipStatus;
use crate::types::DecodeError;
use crate::types::DecodeField;
use crate::types::GpioDirection;
use crate::types::GpioValue;
use crate::types::SpiTransferResponse;
use crate::types::SpiTransferSettings;
use crate::types::SpiTransferStatus;
use crate::types::UsbParameters;
use crate::utils::decode_utf16_lossy;
use crate::utils::decoded_utf16;
use crate::utils::spec_as_u16;
use crate::utils::as_u16;
use crate::utils::utf16_code_units;
use crate::utils::utf16_units;
use crate::Buffer;
use crate::Mcp2210Error;

verus! {

// ---------------------------------------------------------------------------
// Contracted frame building
// ---------------------------------------------------------------------------

/// A fresh command frame: the command code in byte 0, the sub-command code or
/// command parameter in byte 1, every other byte zero.
pub fn command_frame(code: u8, sub: u8) -> (c: Buffer)
    ensures
        c@[0] == code,
        c@[1] == sub,
        forall|i: int| 2 <= i < 64 ==> c@[i] == 0,
{
    let mut c: Buffer = [0; 64];
    proof {
        assert(c == vstd::array::spec_array_fill_for_copy_type::<u8, 64>(0u8));
        assert(forall|i: int| 0 <= i < 64 ==> c@[i] == 0);
    }
    c[0] = code;
    c[1] = sub;
    c
}

/// Writes one byte at the given frame offset, leaving every other byte
/// unchanged.
fn write_byte_at(v: u8, offset: usize, buf: &mut Buffer)
    requires
        offset < 64,
    ensures
        final(buf)@ == old(buf)@.update(offset as int, v),
{
    buf[offset] = v;
}

/// Writes a 16-bit value, little-endian, at the given frame offset, leaving
/// every other byte unchanged.
fn write_u16_le_at(v: u16, offset: usize, buf: &mut Buffer)
    requires
        offset + 2 <= 64,
    ensures
        final(buf)@[offset as int] == v as u8,
        final(buf)@[offset + 1] == (v >> 8) as u8,
        forall|k: int|
            0 <= k < 64 && k != offset && k != offset + 1 ==> final(buf)@[k] == old(buf)@[k],
{
    buf[offset] = v as u8;
    buf[offset + 1] = (v >> 8) as u8;
}

/// Copies `src` into the frame starting at `offset`, leaving every other
/// byte unchanged.
fn write_bytes_at(src: &[u8], offset: usize, buf: &mut Buffer)
    requires
        offset + src@.len() <= 64,
    ensures
        forall|j: int| 0 <= j < src@.len() ==> final(buf)@[offset + j] == src@[j],
        forall|k: int|
            0 <= k < 64 && !(offset <= k < offset + src@.len()) ==> final(buf)@[k] == old(buf)@[k],
{
    let ghost buf0 = buf@;
    let mut i: usize = 0;
    while i < src.len()
        invariant
            offset + src@.len() <= 64,
            i <= src@.len(),
            forall|j: int| 0 <= j < i ==> buf@[offset + j] == src@[j],
            forall|k: int| 0 <= k < 64 && !(offset <= k < offset + i) ==> buf@[k] == buf0[k],
        decreases src@.len() - i,
    {
        buf[offset + i] = src[i];
        i = i + 1;
    }
}

/// Writes UTF-16 code units, little-endian, into the frame starting at
/// `offset`, leaving every other byte unchanged.
fn write_utf16_at(units: &Vec<u16>, offset: usize, buf: &mut Buffer)
    requires
        offset + 2 * units@.len() <= 64,
    ensures
        forall|j: int|
            0 <= j < units@.len() ==> final(buf)@[offset + 2 * j] == units@[j] as u8 && final(buf)@[offset + 2 * j + 1] == (units@[j] >> 8) as u8,
        forall|k: int|
            0 <= k < 64 && !(offset <= k < offset + 2 * units@.len()) ==> final(buf)@[k] == old(buf)@[k],
{
    let ghost buf0 = buf@;
    let mut i: usize = 0;
    while i < units.len()
        invariant
            offset + 2 * units@.len() <= 64,
            i <= units@.len(),
            forall|j: int|
                0 <= j < i ==> buf@[offset + 2 * j] == units@[j] as u8 && buf@[offset + 2 * j + 1]
                    == (units@[j] >> 8) as u8,
            forall|k: int| 0 <= k < 64 && !(offset <= k < offset + 2 * i) ==> buf@[k] == buf0[k],
        decreases units@.len() - i,
    {
        let unit = units[i];
        buf[offset + 2 * i] = unit as u8;
        buf[offset + 2 * i + 1] = (unit >> 8) as u8;
        i = i + 1;
    }
}

/// Appends a byte slice to a vector.
fn extend_from_slice(dst: &mut Vec<u8>, src: &[u8])
    ensures
        final(dst)@ == old(dst)@ + src@,
{
    let ghost dst0 = dst@;
    let mut i: usize = 0;
    while i < src.len()
        invariant
            i <= src@.len(),
            dst@ == dst0 + src@.subrange(0, i as int),
        decreases src@.len() - i,
    {
        dst.push(src[i]);
        proof {
            assert(dst@ =~= dst0 + src@.subrange(0, i + 1));
        }
        i = i + 1;
    }
    proof {
        assert(src@.subrange(0, src@.len() as int) =~= src@);
    }
}

// ---------------------------------------------------------------------------
// The exchange outcome
// ---------------------------------------------------------------------------

/// What one command exchange promises of its outcome, over the command code
/// sent and the response frame left behind: on success the response echoes
/// the code with a zero status byte, and each error names the response status
/// that produced it. Nothing is promised after a transport failure.
pub open spec fn do_command_result(code: u8, res: Seq<u8>, r: Result<(), Mcp2210Error>) -> bool {
    match r {
        Ok(()) => res[0] == code && res[1] == 0x00,
        Err(e) => match e {
            Mcp2210Error::Io(_) => true,
            Mcp2210Error::CommandCode { expected, actual } => expected == code && actual == res[0]
                && actual != code,
            Mcp2210Error::Unavailable => res[0] == code && res[1] == 0xf7,
            Mcp2210Error::Busy => res[0] == code && res[1] == 0xf8,
            Mcp2210Error::UnknownCommandCode(c) => c == code && res[0] == code && res[1] == 0xf9,
            Mcp2210Error::EepromWrite => res[0] == code && res[1] == 0xfa,
            Mcp2210Error::AccessDenied => res[0] == code && res[1] == 0xfb,
            Mcp2210Error::AccessRejected => res[0] == code && res[1] == 0xfc,
            Mcp2210Error::AccessDeniedRetry => res[0] == code && res[1] == 0xfd,
            Mcp2210Error::UnknownErrorCode(v) => v == res[1] && res[0] == code && v != 0x00 && !(
            0xf7 <= v <= 0xfd),
            _ => false,
        },
    }
}

/// What one sub-command exchange promises: the plain exchange outcome, and on
/// success the response must also echo the sub-command code in its byte 2.
pub open spec fn do_sub_command_result(
    code: u8,
    sub: u8,
    res: Seq<u8>,
    r: Result<(), Mcp2210Error>,
) -> bool {
    match r {
        Ok(()) => res[0] == code && res[1] == 0x00 && res[2] == sub,
        Err(e) => match e {
            Mcp2210Error::SubCommandCode { expected, actual } => expected == sub && actual == res[2]
                && actual != sub && res[0] == code && res[1] == 0x00,
            _ => do_command_result(code, res, Err(e)),
        },
    }
}

/// A successful response frame: 64 bytes that echo the command code and
/// report a zero status.
pub open spec fn response_frame(code: u8, b: Seq<u8>) -> bool {
    b.len() == 64 && b[0] == code && b[1] == 0x00
}

/// A successful sub-command response frame: additionally echoes the
/// sub-command code in byte 2.
pub open spec fn sub_response_frame(code: u8, sub: u8, b: Seq<u8>) -> bool {
    response_frame(code, b) && b[2] == sub
}

/// Whether a name response frame carries a well-formed length prefix at
/// offset 4: at least the two bytes of overhead, at most 29 code units, and
/// an even count.
pub open spec fn name_len_valid(b: Seq<u8>) -> bool {
    2 <= b[4] <= 60 && b[4] % 2 == 0
}

/// The UTF-16 code units a name response carries: the length-prefix byte at
/// offset 4 counts two bytes per unit plus two, and the units follow at
/// offset 6, little-endian.
pub open spec fn name_units_of_bytes(b: Seq<u8>) -> Seq<u16> {
    Seq::new((((b[4] - 2) / 2) as nat), |i: int| spec_as_u16(b[6 + 2 * i], b[7 + 2 * i]))
}

// ---------------------------------------------------------------------------
// The transport and the exchange
// ---------------------------------------------------------------------------

/// A byte-oriented duplex channel to one chip: writes exactly one 64-byte
/// command frame, then reads exactly one 64-byte response frame. Supplied by
/// the caller; the engine's exchanges are layered on it as provided methods.
pub trait CommandResponse {
    /// Performs one write+read exchange. A transport failure is reported as
    /// the transport's own description; nothing is assumed about the
    /// response frame it leaves behind.
    fn command_response(&mut self, cmd: &Buffer, res: &mut Buffer) -> Result<(), String>;

    /// One command exchange: writes the prepared command frame, reads the
    /// response into `res`, checks the echoed command code, and maps the
    /// status byte to an outcome.
    fn do_command(&mut self, cmd: &Buffer, res: &mut Buffer) -> (r: Result<(), Mcp2210Error>)
        ensures
            do_command_result(cmd@[0], final(res)@, r),
    {
        match self.command_response(cmd, res) {
            Ok(()) => {},
            Err(msg) => {
                return Err(Mcp2210Error::Io(msg));
            },
        }
        if cmd[0] != res[0] {
            return Err(Mcp2210Error::CommandCode { expected: cmd[0], actual: res[0] });
        }
        match res[1] {
            0x00 => Ok(()),
            0xf7 => Err(Mcp2210Error::Unavailable),
            0xf8 => Err(Mcp2210Error::Busy),
            0xf9 => Err(Mcp2210Error::UnknownCommandCode(cmd[0])),
            0xfa => Err(Mcp2210Error::EepromWrite),
            0xfb => Err(Mcp2210Error::AccessDenied),
            0xfc => Err(Mcp2210Error::AccessRejected),
            0xfd => Err(Mcp2210Error::AccessDeniedRetry),
            err_code => Err(Mcp2210Error::UnknownErrorCode(err_code)),
        }
    }

    /// One sub-command exchange: as `do_command`, and additionally checks
    /// that the response echoes the sub-command code placed in byte 1 of the
    /// command frame.
    fn do_sub_command(&mut self, cmd: &Buffer, res: &mut Buffer) -> (r: Result<(), Mcp2210Error>)
        ensures
            do_sub_command_result(cmd@[0], cmd@[1], final(res)@, r),
    {
        match self.do_command(cmd, res) {
            Ok(()) => {},
            Err(e) => {
                return Err(e);
            },
        }
        if res[2] != cmd[1] {
            Err(Mcp2210Error::SubCommandCode { expected: cmd[1], actual: res[2] })
        } else {
            Ok(())
        }
    }
}

// ---------------------------------------------------------------------------
// The chip operations
// ---------------------------------------------------------------------------

/// The chip operations, one command/response exchange each, available on any
/// transport that implements [`CommandResponse`]. Each operation takes the
/// response scratch buffer from the caller and its contract ties the result
/// to the frame the exchange leaves in it.
pub trait Commands: CommandResponse {
    /// Reads the chip's current status (command 0x10).
    fn get_chip_status(&mut self, res: &mut Buffer) -> (r: Result<ChipStatus, Mcp2210Error>)
        ensures
            r matches Ok(s) ==> response_frame(0x10, final(res)@) && chip_status_bytes_valid(
                final(res)@,
            ) && s == chip_status_of_bytes(final(res)@),
            r matches Err(Mcp2210Error::InvalidResponse(d)) ==> response_frame(0x10, final(res)@)
                && !chip_status_bytes_valid(final(res)@) && d == chip_status_decode_error(
                final(res)@,
            ),
            r matches Err(e) ==> e is InvalidResponse || do_command_result(
                0x10,
                final(res)@,
                Result::<(), Mcp2210Error>::Err(e),
            ),
    {
        let cmd = command_frame(0x10, 0x00);
        match self.do_command(&cmd, res) {
            Ok(()) => {},
            Err(e) => {
                return Err(e);
            },
        }
        match ChipStatus::from_buffer(res) {
            Ok(s) => Ok(s),
            Err(e) => Err(Mcp2210Error::InvalidResponse(e)),
        }
    }

    /// Cancels the SPI transfer in progress and reads the chip's status
    /// (command 0x11).
    fn cancel_spi_transfer(&mut self, res: &mut Buffer) -> (r: Result<ChipStatus, Mcp2210Error>)
        ensures
            r matches Ok(s) ==> response_frame(0x11, final(res)@) && chip_status_bytes_valid(
                final(res)@,
            ) && s == chip_status_of_bytes(final(res)@),
            r matches Err(Mcp2210Error::InvalidResponse(d)) ==> response_frame(0x11, final(res)@)
                && !chip_status_bytes_valid(final(res)@) && d == chip_status_decode_error(
                final(res)@,
            ),
            r matches Err(e) ==> e is InvalidResponse || do_command_result(
                0x11,
                final(res)@,
                Result::<(), Mcp2210Error>::Err(e),
            ),
    {
        let cmd = command_frame(0x11, 0x00);
        match self.do_command(&cmd, res) {
            Ok(()) => {},
            Err(e) => {
                return Err(e);
            },
        }
        match ChipStatus::from_buffer(res) {
            Ok(s) => Ok(s),
            Err(e) => Err(Mcp2210Error::InvalidResponse(e)),
        }
    }

    /// Reads the interrupt event counter (command 0x12 with parameter 0xFF:
    /// read without resetting).
    fn get_interrupt_event_counter(&mut self, res: &mut Buffer) -> (r: Result<u16, Mcp2210Error>)
        ensures
            r matches Ok(n) ==> response_frame(0x12, final(res)@) && n == spec_as_u16(
                final(res)@[4],
                final(res)@[5],
            ),
            r matches Err(e) ==> do_command_result(
                0x12,
                final(res)@,
                Result::<(), Mcp2210Error>::Err(e),
            ),
    {
        let cmd = command_frame(0x12, 0xff);
        match self.do_command(&cmd, res) {
            Ok(()) => {},
            Err(e) => {
                return Err(e);
            },
        }
        Ok(as_u16(res[4], res[5]))
    }

    /// Resets the interrupt event counter and reads its value before the
    /// reset (command 0x12 with parameter 0x00).
    fn reset_interrupt_event_counter(&mut self, res: &mut Buffer) -> (r: Result<u16, Mcp2210Error>)
        ensures
            r matches Ok(n) ==> response_frame(0x12, final(res)@) && n == spec_as_u16(
                final(res)@[4],
                final(res)@[5],
            ),
            r matches Err(e) ==> do_command_result(
                0x12,
                final(res)@,
                Result::<(), Mcp2210Error>::Err(e),
            ),
    {
        let cmd = command_frame(0x12, 0x00);
        match self.do_command(&cmd, res) {
            Ok(()) => {},
            Err(e) => {
                return Err(e);
            },
        }
        Ok(as_u16(res[4], res[5]))
    }

    /// Reads the current chip settings (command 0x20).
    fn get_chip_settings(&mut self, res: &mut Buffer) -> (r: Result<ChipSettings, Mcp2210Error>)
        ensures
            r matches Ok(s) ==> s.wf() && response_frame(0x20, final(res)@)
                && chip_settings_bytes_valid(final(res)@) && s == chip_settings_of_bytes(
                final(res)@,
            ),
            r matches Err(Mcp2210Error::InvalidResponse(d)) ==> response_frame(0x20, final(res)@)
                && !chip_settings_bytes_valid(final(res)@) && d == chip_settings_decode_error(
                final(res)@,
            ),
            r matches Err(e) ==> e is InvalidResponse || do_command_result(
                0x20,
                final(res)@,
                Result::<(), Mcp2210Error>::Err(e),
            ),
    {
        let cmd = command_frame(0x20, 0x00);
        match self.do_command(&cmd, res) {
            Ok(()) => {},
            Err(e) => {
                return Err(e);
            },
        }
        match ChipSettings::from_buffer(res) {
            Ok(s) => Ok(s),
            Err(e) => Err(Mcp2210Error::InvalidResponse(e)),
        }
    }

    /// Replaces the current chip settings (command 0x21).
    fn set_chip_settings(&mut self, settings: &ChipSettings, res: &mut Buffer) -> (r: Result<
        (),
        Mcp2210Error,
    >)
        ensures
            do_command_result(0x21, final(res)@, r),
    {
        let mut cmd = command_frame(0x21, 0x00);
        settings.write_to_buffer(&mut cmd);
        self.do_command(&cmd, res)
    }

    /// Sets the GPIO output values (command 0x30), little-endian at offsets
    /// 4 and 5.
    fn set_gpio_value(&mut self, value: GpioValue, res: &mut Buffer) -> (r: Result<
        (),
        Mcp2210Error,
    >)
        ensures
            do_command_result(0x30, final(res)@, r),
    {
        let mut cmd = command_frame(0x30, 0x00);
        write_u16_le_at(value.bits(), 4, &mut cmd);
        self.do_command(&cmd, res)
    }

    /// Reads the GPIO values (command 0x31). Bits beyond the nine pins are
    /// truncated, not rejected.
    fn get_gpio_value(&mut self, res: &mut Buffer) -> (r: Result<GpioValue, Mcp2210Error>)
        ensures
            r matches Ok(v) ==> v.wf() && response_frame(0x31, final(res)@) && v.bits
                == spec_as_u16(final(res)@[4], final(res)@[5]) & 0x1ff,
            r matches Err(e) ==> do_command_result(
                0x31,
                final(res)@,
                Result::<(), Mcp2210Error>::Err(e),
            ),
    {
        let cmd = command_frame(0x31, 0x00);
        match self.do_command(&cmd, res) {
            Ok(()) => {},
            Err(e) => {
                return Err(e);
            },
        }
        Ok(GpioValue::from_bits_truncate(as_u16(res[4], res[5])))
    }

    /// Sets the GPIO directions (command 0x32), little-endian at offsets 4
    /// and 5.
    fn set_gpio_direction(&mut self, direction: GpioDirection, res: &mut Buffer) -> (r: Result<
        (),
        Mcp2210Error,
    >)
        ensures
            do_command_result(0x32, final(res)@, r),
    {
        let mut cmd = command_frame(0x32, 0x00);
        write_u16_le_at(direction.bits(), 4, &mut cmd);
        self.do_command(&cmd, res)
    }

    /// Reads the GPIO directions (command 0x33). Bits beyond the nine pins
    /// are truncated, not rejected.
    fn get_gpio_direction(&mut self, res: &mut Buffer) -> (r: Result<GpioDirection, Mcp2210Error>)
        ensures
            r matches Ok(v) ==> v.wf() && response_frame(0x33, final(res)@) && v.bits
                == spec_as_u16(final(res)@[4], final(res)@[5]) & 0x1ff,
            r matches Err(e) ==> do_command_result(
                0x33,
                final(res)@,
                Result::<(), Mcp2210Error>::Err(e),
            ),
    {
        let cmd = command_frame(0x33, 0x00);
        match self.do_command(&cmd, res) {
            Ok(()) => {},
            Err(e) => {
                return Err(e);
            },
        }
        Ok(GpioDirection::from_bits_truncate(as_u16(res[4], res[5])))
    }

    /// Replaces the current SPI transfer settings (command 0x40).
    fn set_spi_transfer_settings(&mut self, settings: &SpiTransferSettings, res: &mut Buffer) -> (r:
        Result<(), Mcp2210Error>)
        ensures
            do_command_result(0x40, final(res)@, r),
    {
        let mut cmd = command_frame(0x40, 0x00);
        settings.write_to_buffer(&mut cmd);
        self.do_command(&cmd, res)
    }

    /// Reads the current SPI transfer settings (command 0x41).
    fn get_spi_transfer_settings(&mut self, res: &mut Buffer) -> (r: Result<
        SpiTransferSettings,
        Mcp2210Error,
    >)
        ensures
            r matches Ok(s) ==> s.wf() && response_frame(0x41, final(res)@)
                && spi_transfer_settings_bytes_valid(final(res)@) && s
                == spi_transfer_settings_of_bytes(final(res)@),
            r matches Err(Mcp2210Error::InvalidResponse(d)) ==> response_frame(0x41, final(res)@)
                && !spi_transfer_settings_bytes_valid(final(res)@) && d == (DecodeError {
                field: DecodeField::SpiMode,
                value: final(res)@[20],
            }),
            r matches Err(e) ==> e is InvalidResponse || do_command_result(
                0x41,
                final(res)@,
                Result::<(), Mcp2210Error>::Err(e),
            ),
    {
        let cmd = command_frame(0x41, 0x00);
        match self.do_command(&cmd, res) {
            Ok(()) => {},
            Err(e) => {
                return Err(e);
            },
        }
        match SpiTransferSettings::from_buffer(res) {
            Ok(s) => Ok(s),
            Err(e) => Err(Mcp2210Error::InvalidResponse(e)),
        }
    }

    /// Exchanges one SPI frame (command 0x42): sends up to 60 payload bytes
    /// and hands back the bytes the chip returned, whose count the response
    /// itself reports in byte 2, together with the transfer status from byte
    /// 3. Payloads over 60 bytes are rejected before any exchange.
    fn spi_transfer<'a>(&mut self, data: &[u8], res: &'a mut Buffer) -> (r: Result<
        SpiTransferResponse<'a>,
        Mcp2210Error,
    >)
        ensures
            data@.len() > 60 ==> (r matches Err(e) && e == Mcp2210Error::PayloadSize(
                data@.len() as usize,
            ) && final(res)@ == old(res)@),
            r matches Err(e) && e is PayloadSize ==> data@.len() > 60,
            r matches Ok(resp) ==> ({
                &&& response_frame(0x42, final(res)@)
                &&& final(res)@[2] <= 60
                &&& SpiTransferStatus::spec_valid_u8(final(res)@[3])
                &&& resp.status == SpiTransferStatus::spec_of_u8(final(res)@[3])
                &&& resp.data@ == final(res)@.subrange(4, 4 + final(res)@[2] as int)
            }),
            r matches Err(Mcp2210Error::InvalidResponse(d)) ==> response_frame(0x42, final(res)@)
                && ((d == (DecodeError { field: DecodeField::SpiDataLength, value: final(res)@[2] })
                && final(res)@[2] > 60) || (d == (DecodeError {
                field: DecodeField::SpiTransferStatus,
                value: final(res)@[3],
            }) && final(res)@[2] <= 60 && !SpiTransferStatus::spec_valid_u8(final(res)@[3]))),
            r matches Err(e) ==> e is PayloadSize || e is InvalidResponse
                || do_command_result(0x42, final(res)@, Result::<(), Mcp2210Error>::Err(e)),
    {
        if data.len() > 60 {
            return Err(Mcp2210Error::PayloadSize(data.len()));
        }
        let mut cmd = command_frame(0x42, data.len() as u8);
        write_bytes_at(data, 4, &mut cmd);
        match self.do_command(&cmd, res) {
            Ok(()) => {},
            Err(e) => {
                return Err(e);
            },
        }
        let miso_len = res[2] as usize;
        if miso_len > 60 {
            return Err(
                Mcp2210Error::InvalidResponse(
                    DecodeError { field: DecodeField::SpiDataLength, value: res[2] },
                ),
            );
        }
        let status = match SpiTransferStatus::from_u8(res[3]) {
            Ok(s) => s,
            Err(v) => {
                return Err(
                    Mcp2210Error::InvalidResponse(
                        DecodeError { field: DecodeField::SpiTransferStatus, value: v },
                    ),
                );
            },
        };
        let full: &[u8] = res.as_slice();
        let received = slice_subrange(full, 4, 4 + miso_len);
        Ok(SpiTransferResponse { data: received, status })
    }

    /// Reads one EEPROM byte (command 0x50, the address as the parameter
    /// byte). The response must echo the address in its byte 2; the data is
    /// its byte 3.
    fn read_eeprom(&mut self, addr: u8, res: &mut Buffer) -> (r: Result<u8, Mcp2210Error>)
        ensures
            r matches Ok(d) ==> response_frame(0x50, final(res)@) && final(res)@[2] == addr && d
                == final(res)@[3],
            r matches Err(Mcp2210Error::InvalidResponse(d)) ==> response_frame(0x50, final(res)@)
                && final(res)@[2] != addr && d == (DecodeError {
                field: DecodeField::EepromAddress,
                value: final(res)@[2],
            }),
            r matches Err(e) ==> e is InvalidResponse || do_command_result(
                0x50,
                final(res)@,
                Result::<(), Mcp2210Error>::Err(e),
            ),
    {
        let cmd = command_frame(0x50, addr);
        match self.do_command(&cmd, res) {
            Ok(()) => {},
            Err(e) => {
                return Err(e);
            },
        }
        if res[2] != addr {
            return Err(
                Mcp2210Error::InvalidResponse(
                    DecodeError { field: DecodeField::EepromAddress, value: res[2] },
                ),
            );
        }
        Ok(res[3])
    }

    /// Writes one EEPROM byte (command 0x51, the address as the parameter
    /// byte, the data in byte 2).
    fn write_eeprom(&mut self, addr: u8, data: u8, res: &mut Buffer) -> (r: Result<
        (),
        Mcp2210Error,
    >)
        ensures
            do_command_result(0x51, final(res)@, r),
    {
        let mut cmd = command_frame(0x51, addr);
        write_byte_at(data, 2, &mut cmd);
        self.do_command(&cmd, res)
    }

    /// Stores SPI transfer settings in NVRAM (command 0x60, sub-command
    /// 0x10).
    fn set_nvram_spi_transfer_settings(
        &mut self,
        settings: &SpiTransferSettings,
        res: &mut Buffer,
    ) -> (r: Result<(), Mcp2210Error>)
        ensures
            do_sub_command_result(0x60, 0x10, final(res)@, r),
    {
        let mut cmd = command_frame(0x60, 0x10);
        settings.write_to_buffer(&mut cmd);
        self.do_sub_command(&cmd, res)
    }

    /// Stores chip settings in NVRAM (command 0x60, sub-command 0x20), with
    /// the eight-byte access password at offset 19 where the settings are
    /// password protected.
    fn set_nvram_chip_settings(
        &mut self,
        settings: &ChipSettings,
        password: Option<&[u8; 8]>,
        res: &mut Buffer,
    ) -> (r: Result<(), Mcp2210Error>)
        ensures
            do_sub_command_result(0x60, 0x20, final(res)@, r),
    {
        let mut cmd = command_frame(0x60, 0x20);
        settings.write_to_buffer(&mut cmd);
        match password {
            Some(password) => {
                write_bytes_at(password.as_slice(), 19, &mut cmd);
            },
            None => {},
        }
        self.do_sub_command(&cmd, res)
    }

    /// Stores USB parameters in NVRAM (command 0x60, sub-command 0x30).
    fn set_nvram_usb_parameters(&mut self, params: &UsbParameters, res: &mut Buffer) -> (r: Result<
        (),
        Mcp2210Error,
    >)
        ensures
            do_sub_command_result(0x60, 0x30, final(res)@, r),
    {
        let mut cmd = command_frame(0x60, 0x30);
        params.write_to_buffer(&mut cmd);
        self.do_sub_command(&cmd, res)
    }

    /// Stores the USB product name in NVRAM (command 0x60, sub-command
    /// 0x40): the length prefix at offset 4, the marker byte at offset 5,
    /// the UTF-16LE code units from offset 6. A name longer than 29 code
    /// units is rejected before any exchange.
    fn set_nvram_usb_product_name(&mut self, name: &str, res: &mut Buffer) -> (r: Result<
        (),
        Mcp2210Error,
    >)
        ensures
            utf16_units(name@).len() > 29 ==> (r matches Err(e) && e == Mcp2210Error::StringSize(
                utf16_units(name@).len() as usize,
            ) && final(res)@ == old(res)@),
            utf16_units(name@).len() <= 29 ==> do_sub_command_result(0x60, 0x40, final(res)@, r),
            r matches Err(e) && e is StringSize ==> utf16_units(name@).len() > 29,
    {
        let units = utf16_code_units(name);
        let size = units.len();
        if size > 29 {
            return Err(Mcp2210Error::StringSize(size));
        }
        let mut cmd = command_frame(0x60, 0x40);
        write_byte_at((size as u8) * 2 + 2, 4, &mut cmd);
        write_byte_at(0x03, 5, &mut cmd);
        write_utf16_at(&units, 6, &mut cmd);
        self.do_sub_command(&cmd, res)
    }

    /// Stores the USB vendor name in NVRAM (command 0x60, sub-command 0x50);
    /// the frame layout and the length limit are the product name's.
    fn set_nvram_usb_vendor_name(&mut self, name: &str, res: &mut Buffer) -> (r: Result<
        (),
        Mcp2210Error,
    >)
        ensures
            utf16_units(name@).len() > 29 ==> (r matches Err(e) && e == Mcp2210Error::StringSize(
                utf16_units(name@).len() as usize,
            ) && final(res)@ == old(res)@),
            utf16_units(name@).len() <= 29 ==> do_sub_command_result(0x60, 0x50, final(res)@, r),
            r matches Err(e) && e is StringSize ==> utf16_units(name@).len() > 29,
    {
        let units = utf16_code_units(name);
        let size = units.len();
        if size > 29 {
            return Err(Mcp2210Error::StringSize(size));
        }
        let mut cmd = command_frame(0x60, 0x50);
        write_byte_at((size as u8) * 2 + 2, 4, &mut cmd);
        write_byte_at(0x03, 5, &mut cmd);
        write_utf16_at(&units, 6, &mut cmd);
        self.do_sub_command(&cmd, res)
    }

    /// Reads the SPI transfer settings stored in NVRAM (command 0x61,
    /// sub-command 0x10).
    fn get_nvram_spi_transfer_settings(&mut self, res: &mut Buffer) -> (r: Result<
        SpiTransferSettings,
        Mcp2210Error,
    >)
        ensures
            r matches Ok(s) ==> s.wf() && sub_response_frame(0x61, 0x10, final(res)@)
                && spi_transfer_settings_bytes_valid(final(res)@) && s
                == spi_transfer_settings_of_bytes(final(res)@),
            r matches Err(Mcp2210Error::InvalidResponse(d)) ==> sub_response_frame(
                0x61,
                0x10,
                final(res)@,
            ) && !spi_transfer_settings_bytes_valid(final(res)@) && d == (DecodeError {
                field: DecodeField::SpiMode,
                value: final(res)@[20],
            }),
            r matches Err(e) ==> e is InvalidResponse || do_sub_command_result(
                0x61,
                0x10,
                final(res)@,
                Result::<(), Mcp2210Error>::Err(e),
            ),
    {
        let cmd = command_frame(0x61, 0x10);
        match self.do_sub_command(&cmd, res) {
            Ok(()) => {},
            Err(e) => {
                return Err(e);
            },
        }
        match SpiTransferSettings::from_buffer(res) {
            Ok(s) => Ok(s),
            Err(e) => Err(Mcp2210Error::InvalidResponse(e)),
        }
    }

    /// Reads the chip settings stored in NVRAM (command 0x61, sub-command
    /// 0x20).
    fn get_nvram_chip_settings(&mut self, res: &mut Buffer) -> (r: Result<
        ChipSettings,
        Mcp2210Error,
    >)
        ensures
            r matches Ok(s) ==> s.wf() && sub_response_frame(0x61, 0x20, final(res)@)
                && chip_settings_bytes_valid(final(res)@) && s == chip_settings_of_bytes(
                final(res)@,
            ),
            r matches Err(Mcp2210Error::InvalidResponse(d)) ==> sub_response_frame(
                0x61,
                0x20,
                final(res)@,
            ) && !chip_settings_bytes_valid(final(res)@) && d == chip_settings_decode_error(
                final(res)@,
            ),
            r matches Err(e) ==> e is InvalidResponse || do_sub_command_result(
                0x61,
                0x20,
                final(res)@,
                Result::<(), Mcp2210Error>::Err(e),
            ),
    {
        let cmd = command_frame(0x61, 0x20);
        match self.do_sub_command(&cmd, res) {
            Ok(()) => {},
            Err(e) => {
                return Err(e);
            },
        }
        match ChipSettings::from_buffer(res) {
            Ok(s) => Ok(s),
            Err(e) => Err(Mcp2210Error::InvalidResponse(e)),
        }
    }

    /// Reads the USB parameters stored in NVRAM (command 0x61, sub-command
    /// 0x30).
    fn get_nvram_usb_parameters(&mut self, res: &mut Buffer) -> (r: Result<
        UsbParameters,
        Mcp2210Error,
    >)
        ensures
            r matches Ok(p) ==> sub_response_frame(0x61, 0x30, final(res)@)
                && usb_parameters_bytes_valid(final(res)@) && p == usb_parameters_of_bytes(
                final(res)@,
            ),
            r matches Err(Mcp2210Error::InvalidResponse(d)) ==> sub_response_frame(
                0x61,
                0x30,
                final(res)@,
            ) && !usb_parameters_bytes_valid(final(res)@) && d == (DecodeError {
                field: DecodeField::PowerOption,
                value: final(res)@[29] >> 6,
            }),
            r matches Err(e) ==> e is InvalidResponse || do_sub_command_result(
                0x61,
                0x30,
                final(res)@,
                Result::<(), Mcp2210Error>::Err(e),
            ),
    {
        let cmd = command_frame(0x61, 0x30);
        match self.do_sub_command(&cmd, res) {
            Ok(()) => {},
            Err(e) => {
                return Err(e);
            },
        }
        match UsbParameters::from_buffer(res) {
            Ok(p) => Ok(p),
            Err(e) => Err(Mcp2210Error::InvalidResponse(e)),
        }
    }

    /// Reads the USB product name stored in NVRAM (command 0x61, sub-command
    /// 0x40). Where the response carries the UTF-16 encoding of a name — as
    /// the matching setter emits it — the result is that name.
    fn get_nvram_usb_product_name(&mut self, res: &mut Buffer) -> (r: Result<
        String,
        Mcp2210Error,
    >)
        ensures
            r matches Ok(name) ==> sub_response_frame(0x61, 0x40, final(res)@) && name_len_valid(
                final(res)@,
            ) && name@ == decoded_utf16(name_units_of_bytes(final(res)@)) && (forall|s: Seq<char>|
                (#[trigger] utf16_units(s)) == name_units_of_bytes(final(res)@) ==> name@ == s),
            r matches Err(Mcp2210Error::InvalidResponse(d)) ==> sub_response_frame(
                0x61,
                0x40,
                final(res)@,
            ) && !name_len_valid(final(res)@) && d == (DecodeError {
                field: DecodeField::StringLength,
                value: final(res)@[4],
            }),
            r matches Err(e) ==> e is InvalidResponse || do_sub_command_result(
                0x61,
                0x40,
                final(res)@,
                Result::<(), Mcp2210Error>::Err(e),
            ),
    {
        let cmd = command_frame(0x61, 0x40);
        match self.do_sub_command(&cmd, res) {
            Ok(()) => {},
            Err(e) => {
                return Err(e);
            },
        }
        match read_name_from_response(res) {
            Ok(name) => Ok(name),
            Err(e) => Err(Mcp2210Error::InvalidResponse(e)),
        }
    }

    /// Reads the USB vendor name stored in NVRAM (command 0x61, sub-command
    /// 0x50). Where the response carries the UTF-16 encoding of a name — as
    /// the matching setter emits it — the result is that name.
    fn get_nvram_usb_vendor_name(&mut self, res: &mut Buffer) -> (r: Result<String, Mcp2210Error>)
        ensures
            r matches Ok(name) ==> sub_response_frame(0x61, 0x50, final(res)@) && name_len_valid(
                final(res)@,
            ) && name@ == decoded_utf16(name_units_of_bytes(final(res)@)) && (forall|s: Seq<char>|
                (#[trigger] utf16_units(s)) == name_units_of_bytes(final(res)@) ==> name@ == s),
            r matches Err(Mcp2210Error::InvalidResponse(d)) ==> sub_response_frame(
                0x61,
                0x50,
                final(res)@,
            ) && !name_len_valid(final(res)@) && d == (DecodeError {
                field: DecodeField::StringLength,
                value: final(res)@[4],
            }),
            r matches Err(e) ==> e is InvalidResponse || do_sub_command_result(
                0x61,
                0x50,
                final(res)@,
                Result::<(), Mcp2210Error>::Err(e),
            ),
    {
        let cmd = command_frame(0x61, 0x50);
        match self.do_sub_command(&cmd, res) {
            Ok(()) => {},
            Err(e) => {
                return Err(e);
            },
        }
        match read_name_from_response(res) {
            Ok(name) => Ok(name),
            Err(e) => Err(Mcp2210Error::InvalidResponse(e)),
        }
    }

    /// Submits the eight-byte access password (command 0x70, bytes 4 to 11).
    fn send_access_password(&mut self, password: &[u8; 8], res: &mut Buffer) -> (r: Result<
        (),
        Mcp2210Error,
    >)
        ensures
            do_command_result(0x70, final(res)@, r),
    {
        let mut cmd = command_frame(0x70, 0x00);
        write_bytes_at(password.as_slice(), 4, &mut cmd);
        self.do_command(&cmd, res)
    }

    /// Asks the chip to release the SPI bus (command 0x80); byte 1 carries
    /// the acknowledgment flag.
    fn request_bus_release(&mut self, ack_value: bool, res: &mut Buffer) -> (r: Result<
        (),
        Mcp2210Error,
    >)
        ensures
            do_command_result(0x80, final(res)@, r),
    {
        let cmd = command_frame(
            0x80,
            if ack_value {
                0x01
            } else {
                0x00
            },
        );
        self.do_command(&cmd, res)
    }

    /// Pushes a payload of any length through the chip in chunks of at most
    /// 60 bytes and gathers everything the chip returns into `buf` (appended
    /// after its prior contents, which are kept).
    ///
    /// The first exchange must report `Started` (its data is discarded, and
    /// on any other status nothing is accumulated); after that, chunks are
    /// sent (empty ones once the payload is exhausted, to drain buffered
    /// results) and each response is applied by [`spi_transfer_step`], whose
    /// contract fixes the append, the cursor, and the `Busy` retry, until an
    /// exchange reports `Finished`. The protocol puts no bound on those
    /// retries; the loop's termination measure allows more retries than a
    /// chip could answer in a lifetime, and only when even that budget is
    /// spent does the driver give up with the chip's `Busy` error.
    fn spi_transfer_to_end(&mut self, data: &[u8], buf: &mut Vec<u8>) -> (r: Result<
        (),
        Mcp2210Error,
    >)
        ensures
            final(buf)@.len() >= old(buf)@.len(),
            final(buf)@.subrange(0, old(buf)@.len() as int) == old(buf)@,
            r matches Err(e) ==> !(e is StringSize) && !(e is PayloadSize) && !(
            e is SubCommandCode),
            r matches Err(Mcp2210Error::TransferStatus(s)) ==> s != SpiTransferStatus::Started
                && final(buf)@ == old(buf)@,
    {
        let ghost buf0 = buf@;
        let total = data.len();
        let mut pos: usize = 0;
        let mut res: Buffer = [0; 64];
        {
            let len = if total < 60 {
                total
            } else {
                60
            };
            let first = slice_subrange(data, 0, len);
            let started = match self.spi_transfer(first, &mut res) {
                Ok(resp) => resp.status,
                Err(e) => {
                    return Err(e);
                },
            };
            pos = len;
            if started != SpiTransferStatus::Started {
                return Err(Mcp2210Error::TransferStatus(started));
            }
        }
        let mut attempts: u64 = u64::MAX;
        loop
            invariant
                total == data@.len(),
                pos <= total,
                buf@.len() >= buf0.len(),
                buf@.subrange(0, buf0.len() as int) == buf0,
                buf0 == old(buf)@,
            decreases attempts,
        {
            if attempts == 0 {
                return Err(Mcp2210Error::Busy);
            }
            attempts = attempts - 1;
            let len = if total - pos < 60 {
                total - pos
            } else {
                60
            };
            let chunk = slice_subrange(data, pos, pos + len);
            let step = {
                let outcome = self.spi_transfer(chunk, &mut res);
                spi_transfer_step(outcome, len, &mut pos, buf)
            };
            proof {
                assert(buf@.subrange(0, buf0.len() as int) =~= buf0);
            }
            match step {
                Ok(true) => {
                    break ;
                },
                Ok(false) => {},
                Err(e) => {
                    return Err(e);
                },
            }
        }
        Ok(())
    }
}

/// Applies one continue-phase response of the chunked transfer driver to its
/// state: a successful exchange appends the received bytes to the output and
/// advances the cursor past the chunk just sent, reporting whether the chip
/// said `Finished`; a `Busy` error changes nothing, so the same chunk is sent
/// again; any other error aborts the transfer, also changing nothing.
pub fn spi_transfer_step<'a>(
    outcome: Result<SpiTransferResponse<'a>, Mcp2210Error>,
    sent_len: usize,
    pos: &mut usize,
    buf: &mut Vec<u8>,
) -> (r: Result<bool, Mcp2210Error>)
    requires
        *old(pos) + sent_len <= usize::MAX,
    ensures
        match outcome {
            Ok(resp) => r == Result::<bool, Mcp2210Error>::Ok(
                resp.status == SpiTransferStatus::Finished,
            ) && *final(pos) == *old(pos) + sent_len && final(buf)@ == old(buf)@ + resp.data@,
            Err(e) => *final(pos) == *old(pos) && final(buf)@ == old(buf)@ && (
            e == Mcp2210Error::Busy ==> r == Result::<bool, Mcp2210Error>::Ok(false)) && (e
                != Mcp2210Error::Busy ==> r == Result::<bool, Mcp2210Error>::Err(e)),
        },
{
    match outcome {
        Ok(resp) => {
            *pos = *pos + sent_len;
            let finished = resp.status == SpiTransferStatus::Finished;
            extend_from_slice(buf, resp.data);
            Ok(finished)
        },
        Err(e) => {
            match e {
                Mcp2210Error::Busy => Ok(false),
                _ => Err(e),
            }
        },
    }
}

/// Decodes the UTF-16 name a successful name response carries: the length
/// prefix at offset 4, validated, then the code units from offset 6.
fn read_name_from_response(res: &Buffer) -> (r: Result<String, DecodeError>)
    ensures
        r matches Ok(name) ==> name_len_valid(res@) && name@ == decoded_utf16(
            name_units_of_bytes(res@),
        ) && (forall|s: Seq<char>|
            (#[trigger] utf16_units(s)) == name_units_of_bytes(res@) ==> name@ == s),
        r matches Err(e) ==> !name_len_valid(res@) && e == (DecodeError {
            field: DecodeField::StringLength,
            value: res@[4],
        }),
{
    let prefix = res[4];
    if prefix < 2 || prefix > 60 || prefix % 2 != 0 {
        return Err(DecodeError { field: DecodeField::StringLength, value: prefix });
    }
    let count = ((prefix - 2) / 2) as usize;
    let mut units: Vec<u16> = Vec::new();
    let mut i: usize = 0;
    while i < count
        invariant
            count <= 29,
            count == (res@[4] - 2) / 2,
            i <= count,
            units@.len() == i,
            forall|j: int| 0 <= j < i ==> units@[j] == spec_as_u16(res@[6 + 2 * j], res@[7 + 2 * j]),
        decreases count - i,
    {
        units.push(as_u16(res[6 + 2 * i], res[7 + 2 * i]));
        i = i + 1;
    }
    proof {
        assert(units@ =~= name_units_of_bytes(res@));
    }
    Ok(decode_utf16_lossy(units.as_slice()))
}

/// Law: a name response whose string region carries the little-endian
/// UTF-16 encoding of a name, under the length prefix the name setters
/// emit (two bytes per code unit plus two), holds exactly that name's code
/// units — so, by the name getters' contracts, the name read back from such
/// a response is the name that was stored.
pub proof fn lemma_name_wire_round_trip(s: Seq<char>, b: Seq<u8>)
    requires
        utf16_units(s).len() <= 29,
        b.len() == 64,
        b[4] == 2 * utf16_units(s).len() + 2,
        forall|j: int|
            0 <= j < utf16_units(s).len() ==> b[6 + 2 * j] == utf16_units(s)[j] as u8 && b[7 + 2
                * j] == (utf16_units(s)[j] >> 8) as u8,
    ensures
        name_len_valid(b),
        name_units_of_bytes(b) == utf16_units(s),
{
    let n = utf16_units(s).len() as int;
    assert forall|i: int| 0 <= i < n implies name_units_of_bytes(b)[i] == utf16_units(s)[i] by {
        lemma_u16_split_join(utf16_units(s)[i]);
    }
    assert(name_units_of_bytes(b) =~= utf16_units(s));
}

impl<T: CommandResponse> Commands for T {

}

} // verus!
