//! Protocol engine for the MCP2210 USB-to-SPI bridge chip.
//!
//! The chip is driven through fixed 64-byte command/response frames exchanged
//! over a HID transport. This crate implements the protocol layer: the binary
//! encoding and decoding of every settings structure, the command/response
//! exchange with status-code interpretation, and the chunked SPI transfer
//! driver. The transport itself (device discovery and HID I/O) is supplied by
//! the caller through the [`CommandResponse`] trait.

use vstd::prelude::*;

mod cmds;
mod types;
mod utils;

pub use crate::cmds::command_frame;
pub use crate::cmds::do_command_result;
pub use crate::cmds::do_sub_command_result;
pub use crate::cmds::lemma_name_wire_round_trip;
pub use crate::cmds::name_len_valid;
pub use crate::cmds::name_units_of_bytes;
pub use crate::cmds::response_frame;
pub use crate::cmds::spi_transfer_step;
pub use crate::cmds::sub_response_frame;
pub use crate::cmds::CommandResponse;
pub use crate::cmds::Commands;
pub use crate::types::chip_settings_decode_error;
pub use crate::types::chip_settings_flags_byte;
pub use crate::types::chip_status_decode_error;
pub use crate::types::usb_power_byte;
pub use crate::types::chip_settings_bytes_valid;
pub use crate::types::chip_settings_encoded;
pub use crate::types::chip_settings_of_bytes;
pub use crate::types::chip_status_bytes_valid;
pub use crate::types::chip_status_of_bytes;
pub use crate::types::lemma_chip_settings_round_trip;
pub use crate::types::lemma_chip_status_round_trip;
pub use crate::types::lemma_spi_transfer_settings_round_trip;
pub use crate::types::lemma_usb_parameters_round_trip;
pub use crate::types::spi_transfer_settings_bytes_valid;
pub use crate::types::spi_transfer_settings_encoded;
pub use crate::types::spi_transfer_settings_of_bytes;
pub use crate::types::usb_parameters_bytes_valid;
pub use crate::types::usb_parameters_encoded;
pub use crate::types::usb_parameters_of_bytes;
pub use crate::types::usb_parameters_reported;
pub use crate::types::BusOwner;
pub use crate::types::ChipSelect;
pub use crate::types::ChipSettings;
pub use crate::types::ChipStatus;
pub use crate::types::DecodeError;
pub use crate::types::DecodeField;
pub use crate::types::GpioDirection;
pub use crate::types::GpioValue;
pub use crate::types::InterruptMode;
pub use crate::types::NvramAccessControl;
pub use crate::types::PinMode;
pub use crate::types::SpiMode;
pub use crate::types::SpiTransferResponse;
pub use crate::types::SpiTransferSettings;
pub use crate::types::SpiTransferStatus;
pub use crate::types::UsbParameters;
pub use crate::types::UsbPowerOption;
pub use crate::utils::as_bool;
pub use crate::utils::as_u16;
pub use crate::utils::as_u32;
pub use crate::utils::decoded_utf16;
pub use crate::utils::encode_utf16_to_buffer;
pub use crate::utils::spec_as_u16;
pub use crate::utils::spec_as_u32;
pub use crate::utils::utf16_code_units;
pub use crate::utils::utf16_units;
pub use crate::utils::utf16_units_of_char;

verus! {

/// A fixed 64-byte frame, exchanged in one direction between host and chip.
/// Byte 0 is always the command (or echoed command) code.
pub type Buffer = [u8; 64];

/// The MCP2210's factory USB vendor ID.
pub const FACTORY_VID: u16 = 0x04d8;

/// The MCP2210's factory USB product ID.
pub const FACTORY_PID: u16 = 0x00de;

/// The highest SPI bit rate the chip supports.
pub const MAX_BIT_RATE: u32 = 12_000_000;

/// True exactly of the MCP2210's factory USB identifiers. Device discovery
/// itself lives with the transport; this is the identity test it filters by.
pub fn is_factory_device(vendor_id: u16, product_id: u16) -> (r: bool)
    ensures
        r == (vendor_id == FACTORY_VID && product_id == FACTORY_PID),
{
    vendor_id == FACTORY_VID && product_id == FACTORY_PID
}

/// Everything that can go wrong when driving the chip.
///
/// The taxonomy follows the protocol: transport failures (`Io`), framing
/// errors (`CommandCode`, `SubCommandCode`, `InvalidResponse`,
/// `UnknownErrorCode`), input validation (`StringSize`, `PayloadSize`), the
/// transfer driver's status check (`TransferStatus`), and the chip's own
/// error codes (the remaining variants).
#[derive(Debug, Clone, PartialEq, Eq)]
pub enum Mcp2210Error {
    /// The transport failed to write or read a frame; carries the
    /// transport's description of the failure.
    Io(String),
    /// The response echoed a different command code than was sent.
    CommandCode { expected: u8, actual: u8 },
    /// The response echoed a different sub-command code than was sent.
    SubCommandCode { expected: u8, actual: u8 },
    /// A response field was outside its known value set.
    InvalidResponse(crate::types::DecodeError),
    /// The response status byte is none that the chip defines.
    UnknownErrorCode(u8),
    /// A product or vendor name was longer than 29 UTF-16 code units.
    StringSize(usize),
    /// An SPI payload for one frame was longer than 60 bytes.
    PayloadSize(usize),
    /// A chunked transfer saw a transfer status it did not expect.
    TransferStatus(crate::types::SpiTransferStatus),
    /// Chip status 0xFA: the EEPROM write failed.
    EepromWrite,
    /// Chip status 0xFB: access denied.
    AccessDenied,
    /// Chip status 0xFC: access rejected.
    AccessRejected,
    /// Chip status 0xFD: access denied, retrying allowed.
    AccessDeniedRetry,
    /// Chip status 0xF7: the SPI bus is unavailable.
    Unavailable,
    /// Chip status 0xF8: the SPI bus is busy.
    Busy,
    /// Chip status 0xF9: the chip did not recognise the command code.
    UnknownCommandCode(u8),
}

} // verus!
