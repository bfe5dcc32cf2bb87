//! Typed record layer: the settings and status structures carried inside the
//! 64-byte frames, each with its decode (`from_buffer`) and, where the chip
//! accepts writes, its encode (`write_to_buffer`) routine, pinned to exact
//! byte offsets and bit positions.
//!
//! Decoding validates every enumerated field against its known value set and
//! reports the first offending field; bit-set fields are instead truncated to
//! their nine meaningful bits, mirroring the chip's tolerance of reserved
//! bits. Encoding is total: out-of-range integers are truncated to their wire
//! width.

use vstd::prelude::*;

use crate::utils::spec_as_u16;
use crate::utils::spec_as_u32;
use crate::utils::as_bool;
use crate::utils::as_u16;
use crate::utils::as_u32;
use crate::Buffer;

verus! {

// ---------------------------------------------------------------------------
// Decode errors
// ---------------------------------------------------------------------------

/// The field on which decoding failed.
#[derive(Copy, Clone, Debug, PartialEq, Eq, Structural)]
pub enum DecodeField {
    IsBusReleasePending,
    BusOwner,
    IsPasswordGuessed,
    Gp0Mode,
    Gp1Mode,
    Gp2Mode,
    Gp3Mode,
    Gp4Mode,
    Gp5Mode,
    Gp6Mode,
    Gp7Mode,
    Gp8Mode,
    InterruptMode,
    NvramAccessControl,
    PowerOption,
    SpiMode,
    SpiTransferStatus,
    SpiDataLength,
    StringLength,
    EepromAddress,
}

/// A response field held a byte outside its known value set: the field is
/// named together with the offending raw byte.
#[derive(Copy, Clone, Debug, PartialEq, Eq, Structural)]
pub struct DecodeError {
    pub field: DecodeField,
    pub value: u8,
}

// ---------------------------------------------------------------------------
// Chip status
// ---------------------------------------------------------------------------

/// Who currently controls the SPI bus.
#[derive(Copy, Clone, Debug, PartialEq, Eq, Structural)]
pub enum BusOwner {
    NoOwner,
    UsbBridge,
    ExternalMaster,
}

impl BusOwner {
    /// The wire byte for this owner.
    pub open spec fn spec_u8(self) -> u8 {
        match self {
            BusOwner::NoOwner => 0x00,
            BusOwner::UsbBridge => 0x01,
            BusOwner::ExternalMaster => 0x02,
        }
    }

    /// Whether a wire byte names a bus owner.
    pub open spec fn spec_valid_u8(v: u8) -> bool {
        v == 0x00 || v == 0x01 || v == 0x02
    }

    /// The owner a valid wire byte names.
    pub open spec fn spec_of_u8(v: u8) -> BusOwner {
        if v == 0x00 {
            BusOwner::NoOwner
        } else if v == 0x01 {
            BusOwner::UsbBridge
        } else {
            BusOwner::ExternalMaster
        }
    }

    pub fn from_u8(v: u8) -> (r: Result<BusOwner, u8>)
        ensures
            Self::spec_valid_u8(v) ==> r == Result::<BusOwner, u8>::Ok(Self::spec_of_u8(v)),
            !Self::spec_valid_u8(v) ==> r == Result::<BusOwner, u8>::Err(v),
    {
        match v {
            0x00 => Ok(BusOwner::NoOwner),
            0x01 => Ok(BusOwner::UsbBridge),
            0x02 => Ok(BusOwner::ExternalMaster),
            _ => Err(v),
        }
    }
}

/// The chip's current status, decoded from response bytes 2 to 5.
#[derive(Copy, Clone, Debug, PartialEq, Eq, Structural)]
pub struct ChipStatus {
    pub is_bus_release_pending: bool,
    pub bus_owner: BusOwner,
    pub password_attempt_count: u8,
    pub is_password_guessed: bool,
}

/// Whether the status bytes of a response frame are within their value sets.
pub open spec fn chip_status_bytes_valid(b: Seq<u8>) -> bool {
    &&& (b[2] == 0x00 || b[2] == 0x01)
    &&& BusOwner::spec_valid_u8(b[3])
    &&& (b[5] == 0x00 || b[5] == 0x01)
}

/// The status a valid response frame carries. The bus-release-pending flag is
/// the logical negation of the raw byte.
pub open spec fn chip_status_of_bytes(b: Seq<u8>) -> ChipStatus {
    ChipStatus {
        is_bus_release_pending: b[2] == 0x00,
        bus_owner: BusOwner::spec_of_u8(b[3]),
        password_attempt_count: b[4],
        is_password_guessed: b[5] == 0x01,
    }
}

/// The first status field, in wire order, whose byte is outside its value set.
pub open spec fn chip_status_decode_error(b: Seq<u8>) -> DecodeError {
    if !(b[2] == 0x00 || b[2] == 0x01) {
        DecodeError { field: DecodeField::IsBusReleasePending, value: b[2] }
    } else if !BusOwner::spec_valid_u8(b[3]) {
        DecodeError { field: DecodeField::BusOwner, value: b[3] }
    } else {
        DecodeError { field: DecodeField::IsPasswordGuessed, value: b[5] }
    }
}

impl ChipStatus {
    pub fn from_buffer(buf: &Buffer) -> (r: Result<ChipStatus, DecodeError>)
        ensures
            chip_status_bytes_valid(buf@) ==> r == Result::<ChipStatus, DecodeError>::Ok(
                chip_status_of_bytes(buf@),
            ),
            !chip_status_bytes_valid(buf@) ==> r == Result::<ChipStatus, DecodeError>::Err(
                chip_status_decode_error(buf@),
            ),
    {
        let raw_release = match as_bool(buf[2]) {
            Ok(v) => v,
            Err(v) => {
                return Err(DecodeError { field: DecodeField::IsBusReleasePending, value: v });
            },
        };
        let bus_owner = match BusOwner::from_u8(buf[3]) {
            Ok(v) => v,
            Err(v) => {
                return Err(DecodeError { field: DecodeField::BusOwner, value: v });
            },
        };
        let guessed = match as_bool(buf[5]) {
            Ok(v) => v,
            Err(v) => {
                return Err(DecodeError { field: DecodeField::IsPasswordGuessed, value: v });
            },
        };
        Ok(
            ChipStatus {
                is_bus_release_pending: !raw_release,
                bus_owner,
                password_attempt_count: buf[4],
                is_password_guessed: guessed,
            },
        )
    }
}

/// Law: any frame whose status bytes are the wire image of the given logical
/// fields decodes back to exactly those fields; the bus-release-pending flag
/// is the negation of its raw byte, the others map directly.
pub proof fn lemma_chip_status_round_trip(s: ChipStatus, b: Seq<u8>)
    requires
        b.len() == 64,
        b[2] == (if s.is_bus_release_pending { 0x00u8 } else { 0x01u8 }),
        b[3] == s.bus_owner.spec_u8(),
        b[4] == s.password_attempt_count,
        b[5] == (if s.is_password_guessed { 0x01u8 } else { 0x00u8 }),
    ensures
        chip_status_bytes_valid(b),
        chip_status_of_bytes(b) == s,
{
}

// ---------------------------------------------------------------------------
// Nine-bit flag sets
// ---------------------------------------------------------------------------

/// Output values for the nine GPIO pins, one bit per pin (bits 0 to 8).
#[derive(Copy, Clone, Debug, PartialEq, Eq, Structural)]
pub struct GpioValue {
    pub bits: u16,
}

impl GpioValue {
    /// Only bits 0 to 8 are meaningful.
    pub open spec fn wf(self) -> bool {
        self.bits <= 0x1ff
    }

    pub fn bits(&self) -> (r: u16)
        ensures
            r == self.bits,
    {
        self.bits
    }

    /// Keeps the nine meaningful bits and drops the rest.
    pub fn from_bits_truncate(v: u16) -> (r: GpioValue)
        ensures
            r.bits == v & 0x1ff,
            r.wf(),
    {
        proof {
            assert(v & 0x1ff <= 0x1ff) by (bit_vector);
        }
        GpioValue { bits: v & 0x1ff }
    }

    /// All nine pins high.
    pub fn all_high() -> (r: GpioValue)
        ensures
            r.bits == 0x1ff,
    {
        GpioValue { bits: 0x1ff }
    }

    /// All nine pins low.
    pub fn all_low() -> (r: GpioValue)
        ensures
            r.bits == 0,
    {
        GpioValue { bits: 0 }
    }
}

impl Default for GpioValue {
    /// Pins default to high.
    fn default() -> (r: GpioValue)
        ensures
            r.bits == 0x1ff,
    {
        GpioValue { bits: 0x1ff }
    }
}

/// Directions for the nine GPIO pins, one bit per pin: a set bit is an input.
#[derive(Copy, Clone, Debug, PartialEq, Eq, Structural)]
pub struct GpioDirection {
    pub bits: u16,
}

impl GpioDirection {
    /// Only bits 0 to 8 are meaningful.
    pub open spec fn wf(self) -> bool {
        self.bits <= 0x1ff
    }

    pub fn bits(&self) -> (r: u16)
        ensures
            r == self.bits,
    {
        self.bits
    }

    /// Keeps the nine meaningful bits and drops the rest.
    pub fn from_bits_truncate(v: u16) -> (r: GpioDirection)
        ensures
            r.bits == v & 0x1ff,
            r.wf(),
    {
        proof {
            assert(v & 0x1ff <= 0x1ff) by (bit_vector);
        }
        GpioDirection { bits: v & 0x1ff }
    }

    /// All nine pins inputs.
    pub fn all_inputs() -> (r: GpioDirection)
        ensures
            r.bits == 0x1ff,
    {
        GpioDirection { bits: 0x1ff }
    }

    /// All nine pins outputs.
    pub fn all_outputs() -> (r: GpioDirection)
        ensures
            r.bits == 0,
    {
        GpioDirection { bits: 0 }
    }
}

impl Default for GpioDirection {
    /// Pins default to inputs.
    fn default() -> (r: GpioDirection)
        ensures
            r.bits == 0x1ff,
    {
        GpioDirection { bits: 0x1ff }
    }
}

/// Chip-select line levels, one bit per line (bits 0 to 8).
#[derive(Copy, Clone, Debug, PartialEq, Eq, Structural)]
pub struct ChipSelect {
    pub bits: u16,
}

impl ChipSelect {
    /// Only bits 0 to 8 are meaningful.
    pub open spec fn wf(self) -> bool {
        self.bits <= 0x1ff
    }

    pub fn bits(&self) -> (r: u16)
        ensures
            r == self.bits,
    {
        self.bits
    }

    /// Keeps the nine meaningful bits and drops the rest.
    pub fn from_bits_truncate(v: u16) -> (r: ChipSelect)
        ensures
            r.bits == v & 0x1ff,
            r.wf(),
    {
        proof {
            assert(v & 0x1ff <= 0x1ff) by (bit_vector);
        }
        ChipSelect { bits: v & 0x1ff }
    }

    /// All nine lines high.
    pub fn all_high() -> (r: ChipSelect)
        ensures
            r.bits == 0x1ff,
    {
        ChipSelect { bits: 0x1ff }
    }

    /// All nine lines low.
    pub fn all_low() -> (r: ChipSelect)
        ensures
            r.bits == 0,
    {
        ChipSelect { bits: 0 }
    }
}

// ---------------------------------------------------------------------------
// Chip settings
// ---------------------------------------------------------------------------

/// What a GPIO pin is used for.
#[derive(Copy, Clone, Debug, PartialEq, Eq, Structural)]
pub enum PinMode {
    Gpio,
    ChipSelect,
    Dedicated,
}

impl PinMode {
    /// The wire byte for this mode.
    pub open spec fn spec_u8(self) -> u8 {
        match self {
            PinMode::Gpio => 0x00,
            PinMode::ChipSelect => 0x01,
            PinMode::Dedicated => 0x02,
        }
    }

    /// Whether a wire byte names a pin mode.
    pub open spec fn spec_valid_u8(v: u8) -> bool {
        v == 0x00 || v == 0x01 || v == 0x02
    }

    /// The mode a valid wire byte names.
    pub open spec fn spec_of_u8(v: u8) -> PinMode {
        if v == 0x00 {
            PinMode::Gpio
        } else if v == 0x01 {
            PinMode::ChipSelect
        } else {
            PinMode::Dedicated
        }
    }

    pub fn from_u8(v: u8) -> (r: Result<PinMode, u8>)
        ensures
            Self::spec_valid_u8(v) ==> r == Result::<PinMode, u8>::Ok(Self::spec_of_u8(v)),
            !Self::spec_valid_u8(v) ==> r == Result::<PinMode, u8>::Err(v),
    {
        match v {
            0x00 => Ok(PinMode::Gpio),
            0x01 => Ok(PinMode::ChipSelect),
            0x02 => Ok(PinMode::Dedicated),
            _ => Err(v),
        }
    }

    pub fn to_u8(self) -> (r: u8)
        ensures
            r == self.spec_u8(),
    {
        match self {
            PinMode::Gpio => 0x00,
            PinMode::ChipSelect => 0x01,
            PinMode::Dedicated => 0x02,
        }
    }
}

/// What the dedicated interrupt pin counts.
#[derive(Copy, Clone, Debug, PartialEq, Eq, Structural)]
pub enum InterruptMode {
    Disabled,
    FallingEdges,
    RisingEdges,
    LowPulses,
    HighPulses,
}

impl Default for InterruptMode {
    fn default() -> (r: InterruptMode)
        ensures
            r == InterruptMode::Disabled,
    {
        InterruptMode::Disabled
    }
}

impl InterruptMode {
    /// The three-bit wire value for this mode.
    pub open spec fn spec_u8(self) -> u8 {
        match self {
            InterruptMode::Disabled => 0b000,
            InterruptMode::FallingEdges => 0b001,
            InterruptMode::RisingEdges => 0b010,
            InterruptMode::LowPulses => 0b011,
            InterruptMode::HighPulses => 0b100,
        }
    }

    /// Whether a three-bit wire value names an interrupt mode.
    pub open spec fn spec_valid_u8(v: u8) -> bool {
        v <= 0b100
    }

    /// The mode a valid wire value names.
    pub open spec fn spec_of_u8(v: u8) -> InterruptMode {
        if v == 0b000 {
            InterruptMode::Disabled
        } else if v == 0b001 {
            InterruptMode::FallingEdges
        } else if v == 0b010 {
            InterruptMode::RisingEdges
        } else if v == 0b011 {
            InterruptMode::LowPulses
        } else {
            InterruptMode::HighPulses
        }
    }

    pub fn from_u8(v: u8) -> (r: Result<InterruptMode, u8>)
        ensures
            Self::spec_valid_u8(v) ==> r == Result::<InterruptMode, u8>::Ok(Self::spec_of_u8(v)),
            !Self::spec_valid_u8(v) ==> r == Result::<InterruptMode, u8>::Err(v),
    {
        match v {
            0b100 => Ok(InterruptMode::HighPulses),
            0b011 => Ok(InterruptMode::LowPulses),
            0b010 => Ok(InterruptMode::RisingEdges),
            0b001 => Ok(InterruptMode::FallingEdges),
            0b000 => Ok(InterruptMode::Disabled),
            _ => Err(v),
        }
    }

    pub fn to_u8(self) -> (r: u8)
        ensures
            r == self.spec_u8(),
    {
        match self {
            InterruptMode::Disabled => 0b000,
            InterruptMode::FallingEdges => 0b001,
            InterruptMode::RisingEdges => 0b010,
            InterruptMode::LowPulses => 0b011,
            InterruptMode::HighPulses => 0b100,
        }
    }
}

/// How the chip guards its non-volatile settings against changes.
#[derive(Copy, Clone, Debug, PartialEq, Eq, Structural)]
pub enum NvramAccessControl {
    NotProtected,
    Password,
    PermanentlyLocked,
}

impl Default for NvramAccessControl {
    fn default() -> (r: NvramAccessControl)
        ensures
            r == NvramAccessControl::NotProtected,
    {
        NvramAccessControl::NotProtected
    }
}

impl NvramAccessControl {
    /// The wire byte for this access control.
    pub open spec fn spec_u8(self) -> u8 {
        match self {
            NvramAccessControl::NotProtected => 0x00,
            NvramAccessControl::Password => 0x40,
            NvramAccessControl::PermanentlyLocked => 0x80,
        }
    }

    /// Whether a wire byte names an access control.
    pub open spec fn spec_valid_u8(v: u8) -> bool {
        v == 0x00 || v == 0x40 || v == 0x80
    }

    /// The access control a valid wire byte names.
    pub open spec fn spec_of_u8(v: u8) -> NvramAccessControl {
        if v == 0x00 {
            NvramAccessControl::NotProtected
        } else if v == 0x40 {
            NvramAccessControl::Password
        } else {
            NvramAccessControl::PermanentlyLocked
        }
    }

    pub fn from_u8(v: u8) -> (r: Result<NvramAccessControl, u8>)
        ensures
            Self::spec_valid_u8(v) ==> r == Result::<NvramAccessControl, u8>::Ok(
                Self::spec_of_u8(v),
            ),
            !Self::spec_valid_u8(v) ==> r == Result::<NvramAccessControl, u8>::Err(v),
    {
        match v {
            0x00 => Ok(NvramAccessControl::NotProtected),
            0x40 => Ok(NvramAccessControl::Password),
            0x80 => Ok(NvramAccessControl::PermanentlyLocked),
            _ => Err(v),
        }
    }

    pub fn to_u8(self) -> (r: u8)
        ensures
            r == self.spec_u8(),
    {
        match self {
            NvramAccessControl::NotProtected => 0x00,
            NvramAccessControl::Password => 0x40,
            NvramAccessControl::PermanentlyLocked => 0x80,
        }
    }
}

/// The chip's pin assignments and power-up behaviour. Round-trips through
/// frame offsets 4 to 18.
#[derive(Copy, Clone, Debug, PartialEq, Eq, Structural)]
pub struct ChipSettings {
    pub gp0_mode: PinMode,
    pub gp1_mode: PinMode,
    pub gp2_mode: PinMode,
    pub gp3_mode: PinMode,
    pub gp4_mode: PinMode,
    pub gp5_mode: PinMode,
    pub gp6_mode: PinMode,
    pub gp7_mode: PinMode,
    pub gp8_mode: PinMode,
    pub default_gpio_value: GpioValue,
    pub default_gpio_direction: GpioDirection,
    pub remote_wakeup: bool,
    pub interrupt_mode: InterruptMode,
    pub bus_release: bool,
    pub nvram_access_control: NvramAccessControl,
}

/// Frame byte 17: the remote-wakeup flag in bit 4, the interrupt mode in bits
/// 1 to 3, and the bus-release flag inverted in bit 0.
pub open spec fn chip_settings_flags_byte(s: ChipSettings) -> u8 {
    (if s.remote_wakeup {
        0x10u8
    } else {
        0u8
    }) | (s.interrupt_mode.spec_u8() << 1) | (if s.bus_release {
        0u8
    } else {
        1u8
    })
}

/// Whether frame bytes 4 to 18 hold the wire image of the given settings.
pub open spec fn chip_settings_encoded(s: ChipSettings, b: Seq<u8>) -> bool {
    &&& b[4] == s.gp0_mode.spec_u8()
    &&& b[5] == s.gp1_mode.spec_u8()
    &&& b[6] == s.gp2_mode.spec_u8()
    &&& b[7] == s.gp3_mode.spec_u8()
    &&& b[8] == s.gp4_mode.spec_u8()
    &&& b[9] == s.gp5_mode.spec_u8()
    &&& b[10] == s.gp6_mode.spec_u8()
    &&& b[11] == s.gp7_mode.spec_u8()
    &&& b[12] == s.gp8_mode.spec_u8()
    &&& b[13] == s.default_gpio_value.bits as u8
    &&& b[14] == (s.default_gpio_value.bits >> 8) as u8
    &&& b[15] == s.default_gpio_direction.bits as u8
    &&& b[16] == (s.default_gpio_direction.bits >> 8) as u8
    &&& b[17] == chip_settings_flags_byte(s)
    &&& b[18] == s.nvram_access_control.spec_u8()
}

/// Whether the enumerated fields in frame bytes 4 to 18 are within their
/// value sets.
pub open spec fn chip_settings_bytes_valid(b: Seq<u8>) -> bool {
    &&& PinMode::spec_valid_u8(b[4])
    &&& PinMode::spec_valid_u8(b[5])
    &&& PinMode::spec_valid_u8(b[6])
    &&& PinMode::spec_valid_u8(b[7])
    &&& PinMode::spec_valid_u8(b[8])
    &&& PinMode::spec_valid_u8(b[9])
    &&& PinMode::spec_valid_u8(b[10])
    &&& PinMode::spec_valid_u8(b[11])
    &&& PinMode::spec_valid_u8(b[12])
    &&& InterruptMode::spec_valid_u8((b[17] >> 1) & 0b111)
    &&& NvramAccessControl::spec_valid_u8(b[18])
}

/// The settings a valid frame carries.
pub open spec fn chip_settings_of_bytes(b: Seq<u8>) -> ChipSettings {
    ChipSettings {
        gp0_mode: PinMode::spec_of_u8(b[4]),
        gp1_mode: PinMode::spec_of_u8(b[5]),
        gp2_mode: PinMode::spec_of_u8(b[6]),
        gp3_mode: PinMode::spec_of_u8(b[7]),
        gp4_mode: PinMode::spec_of_u8(b[8]),
        gp5_mode: PinMode::spec_of_u8(b[9]),
        gp6_mode: PinMode::spec_of_u8(b[10]),
        gp7_mode: PinMode::spec_of_u8(b[11]),
        gp8_mode: PinMode::spec_of_u8(b[12]),
        default_gpio_value: GpioValue { bits: spec_as_u16(b[13], b[14]) & 0x1ff },
        default_gpio_direction: GpioDirection { bits: spec_as_u16(b[15], b[16]) & 0x1ff },
        remote_wakeup: b[17] & 0x10 != 0,
        interrupt_mode: InterruptMode::spec_of_u8((b[17] >> 1) & 0b111),
        bus_release: b[17] & 1 == 0,
        nvram_access_control: NvramAccessControl::spec_of_u8(b[18]),
    }
}

/// The first settings field, in wire order, whose byte is outside its value
/// set.
pub open spec fn chip_settings_decode_error(b: Seq<u8>) -> DecodeError {
    if !PinMode::spec_valid_u8(b[4]) {
        DecodeError { field: DecodeField::Gp0Mode, value: b[4] }
    } else if !PinMode::spec_valid_u8(b[5]) {
        DecodeError { field: DecodeField::Gp1Mode, value: b[5] }
    } else if !PinMode::spec_valid_u8(b[6]) {
        DecodeError { field: DecodeField::Gp2Mode, value: b[6] }
    } else if !PinMode::spec_valid_u8(b[7]) {
        DecodeError { field: DecodeField::Gp3Mode, value: b[7] }
    } else if !PinMode::spec_valid_u8(b[8]) {
        DecodeError { field: DecodeField::Gp4Mode, value: b[8] }
    } else if !PinMode::spec_valid_u8(b[9]) {
        DecodeError { field: DecodeField::Gp5Mode, value: b[9] }
    } else if !PinMode::spec_valid_u8(b[10]) {
        DecodeError { field: DecodeField::Gp6Mode, value: b[10] }
    } else if !PinMode::spec_valid_u8(b[11]) {
        DecodeError { field: DecodeField::Gp7Mode, value: b[11] }
    } else if !PinMode::spec_valid_u8(b[12]) {
        DecodeError { field: DecodeField::Gp8Mode, value: b[12] }
    } else if !InterruptMode::spec_valid_u8((b[17] >> 1) & 0b111) {
        DecodeError { field: DecodeField::InterruptMode, value: (b[17] >> 1) & 0b111 }
    } else {
        DecodeError { field: DecodeField::NvramAccessControl, value: b[18] }
    }
}

impl ChipSettings {
    /// The bit-set fields hold only their nine meaningful bits.
    pub open spec fn wf(self) -> bool {
        self.default_gpio_value.wf() && self.default_gpio_direction.wf()
    }

    pub fn from_buffer(buf: &Buffer) -> (r: Result<ChipSettings, DecodeError>)
        ensures
            chip_settings_bytes_valid(buf@) ==> r == Result::<ChipSettings, DecodeError>::Ok(
                chip_settings_of_bytes(buf@),
            ),
            !chip_settings_bytes_valid(buf@) ==> r == Result::<ChipSettings, DecodeError>::Err(
                chip_settings_decode_error(buf@),
            ),
            r matches Ok(s) ==> s.wf(),
    {
        let gp0_mode = match PinMode::from_u8(buf[4]) {
            Ok(m) => m,
            Err(v) => {
                return Err(DecodeError { field: DecodeField::Gp0Mode, value: v });
            },
        };
        let gp1_mode = match PinMode::from_u8(buf[5]) {
            Ok(m) => m,
            Err(v) => {
                return Err(DecodeError { field: DecodeField::Gp1Mode, value: v });
            },
        };
        let gp2_mode = match PinMode::from_u8(buf[6]) {
            Ok(m) => m,
            Err(v) => {
                return Err(DecodeError { field: DecodeField::Gp2Mode, value: v });
            },
        };
        let gp3_mode = match PinMode::from_u8(buf[7]) {
            Ok(m) => m,
            Err(v) => {
                return Err(DecodeError { field: DecodeField::Gp3Mode, value: v });
            },
        };
        let gp4_mode = match PinMode::from_u8(buf[8]) {
            Ok(m) => m,
            Err(v) => {
                return Err(DecodeError { field: DecodeField::Gp4Mode, value: v });
            },
        };
        let gp5_mode = match PinMode::from_u8(buf[9]) {
            Ok(m) => m,
            Err(v) => {
                return Err(DecodeError { field: DecodeField::Gp5Mode, value: v });
            },
        };
        let gp6_mode = match PinMode::from_u8(buf[10]) {
            Ok(m) => m,
            Err(v) => {
                return Err(DecodeError { field: DecodeField::Gp6Mode, value: v });
            },
        };
        let gp7_mode = match PinMode::from_u8(buf[11]) {
            Ok(m) => m,
            Err(v) => {
                return Err(DecodeError { field: DecodeField::Gp7Mode, value: v });
            },
        };
        let gp8_mode = match PinMode::from_u8(buf[12]) {
            Ok(m) => m,
            Err(v) => {
                return Err(DecodeError { field: DecodeField::Gp8Mode, value: v });
            },
        };
        let default_gpio_value = GpioValue::from_bits_truncate(as_u16(buf[13], buf[14]));
        let default_gpio_direction = GpioDirection::from_bits_truncate(as_u16(buf[15], buf[16]));
        let flags = buf[17];
        let interrupt_mode = match InterruptMode::from_u8((flags >> 1) & 0b111) {
            Ok(m) => m,
            Err(v) => {
                return Err(DecodeError { field: DecodeField::InterruptMode, value: v });
            },
        };
        let nvram_access_control = match NvramAccessControl::from_u8(buf[18]) {
            Ok(m) => m,
            Err(v) => {
                return Err(DecodeError { field: DecodeField::NvramAccessControl, value: v });
            },
        };
        Ok(
            ChipSettings {
                gp0_mode,
                gp1_mode,
                gp2_mode,
                gp3_mode,
                gp4_mode,
                gp5_mode,
                gp6_mode,
                gp7_mode,
                gp8_mode,
                default_gpio_value,
                default_gpio_direction,
                remote_wakeup: flags & 0x10 != 0,
                interrupt_mode,
                bus_release: flags & 1 == 0,
                nvram_access_control,
            },
        )
    }

    /// Writes the wire image of these settings into frame bytes 4 to 18,
    /// leaving every other byte unchanged.
    #[verifier::spinoff_prover]
    #[verifier::rlimit(100)]
    pub fn write_to_buffer(&self, buf: &mut Buffer)
        ensures
            chip_settings_encoded(*self, final(buf)@),
            forall|i: int| 0 <= i < 64 && !(4 <= i <= 18) ==> final(buf)@[i] == old(buf)@[i],
    {
        let value_bits = self.default_gpio_value.bits;
        let direction_bits = self.default_gpio_direction.bits;
        buf[4] = self.gp0_mode.to_u8();
        buf[5] = self.gp1_mode.to_u8();
        buf[6] = self.gp2_mode.to_u8();
        buf[7] = self.gp3_mode.to_u8();
        buf[8] = self.gp4_mode.to_u8();
        buf[9] = self.gp5_mode.to_u8();
        buf[10] = self.gp6_mode.to_u8();
        buf[11] = self.gp7_mode.to_u8();
        buf[12] = self.gp8_mode.to_u8();
        buf[13] = value_bits as u8;
        buf[14] = (value_bits >> 8) as u8;
        buf[15] = direction_bits as u8;
        buf[16] = (direction_bits >> 8) as u8;
        buf[17] = (if self.remote_wakeup {
            0x10u8
        } else {
            0u8
        }) | (self.interrupt_mode.to_u8() << 1) | (if self.bus_release {
            0u8
        } else {
            1u8
        });
        buf[18] = self.nvram_access_control.to_u8();
    }
}

/// Splitting a sixteen-bit value into little-endian bytes and recombining
/// them gives the value back; the nine-bit truncation mask keeps a value that
/// already fits nine bits.
pub(crate) proof fn lemma_u16_split_join(v: u16)
    ensures
        spec_as_u16(v as u8, (v >> 8) as u8) == v,
        v <= 0x1ff ==> spec_as_u16(v as u8, (v >> 8) as u8) & 0x1ff == v,
{
    assert(((((v >> 8) as u8) as u16) << 8) | ((v as u8) as u16) == v) by (bit_vector);
    assert(v <= 0x1ff ==> v & 0x1ff == v) by (bit_vector);
}

/// The three packed fields of the settings flags byte read back unchanged.
proof fn lemma_flags_byte_fields(w: u8, im: u8, br: u8)
    requires
        w == 0 || w == 0x10,
        im <= 4,
        br <= 1,
    ensures
        ((w | (im << 1) | br) >> 1) & 0b111 == im,
        (w | (im << 1) | br) & 0x10 == w,
        (w | (im << 1) | br) & 1 == br,
{
    assert((w == 0 || w == 0x10) && im <= 4 && br <= 1 ==> ((w | (im << 1) | br) >> 1) & 0b111
        == im) by (bit_vector);
    assert((w == 0 || w == 0x10) && im <= 4 && br <= 1 ==> (w | (im << 1) | br) & 0x10 == w)
        by (bit_vector);
    assert((w == 0 || w == 0x10) && im <= 4 && br <= 1 ==> (w | (im << 1) | br) & 1 == br)
        by (bit_vector);
}

/// Law: decoding the buffer a well-formed `ChipSettings` value was encoded
/// into yields the original value.
pub proof fn lemma_chip_settings_round_trip(s: ChipSettings, b: Seq<u8>)
    requires
        s.wf(),
        b.len() == 64,
        chip_settings_encoded(s, b),
    ensures
        chip_settings_bytes_valid(b),
        chip_settings_of_bytes(b) == s,
{
    lemma_u16_split_join(s.default_gpio_value.bits);
    lemma_u16_split_join(s.default_gpio_direction.bits);
    let w: u8 = if s.remote_wakeup {
        0x10u8
    } else {
        0u8
    };
    let br: u8 = if s.bus_release {
        0u8
    } else {
        1u8
    };
    lemma_flags_byte_fields(w, s.interrupt_mode.spec_u8(), br);
}

// ---------------------------------------------------------------------------
// SPI transfer settings
// ---------------------------------------------------------------------------

/// The SPI clock/data relationship, modes 0 to 3.
#[derive(Copy, Clone, Debug, PartialEq, Eq, Structural)]
pub enum SpiMode {
    Mode0,
    Mode1,
    Mode2,
    Mode3,
}

impl SpiMode {
    /// The wire byte for this mode.
    pub open spec fn spec_u8(self) -> u8 {
        match self {
            SpiMode::Mode0 => 0x00,
            SpiMode::Mode1 => 0x01,
            SpiMode::Mode2 => 0x02,
            SpiMode::Mode3 => 0x03,
        }
    }

    /// Whether a wire byte names an SPI mode.
    pub open spec fn spec_valid_u8(v: u8) -> bool {
        v <= 0x03
    }

    /// The mode a valid wire byte names.
    pub open spec fn spec_of_u8(v: u8) -> SpiMode {
        if v == 0x00 {
            SpiMode::Mode0
        } else if v == 0x01 {
            SpiMode::Mode1
        } else if v == 0x02 {
            SpiMode::Mode2
        } else {
            SpiMode::Mode3
        }
    }

    pub fn from_u8(v: u8) -> (r: Result<SpiMode, u8>)
        ensures
            Self::spec_valid_u8(v) ==> r == Result::<SpiMode, u8>::Ok(Self::spec_of_u8(v)),
            !Self::spec_valid_u8(v) ==> r == Result::<SpiMode, u8>::Err(v),
    {
        match v {
            0x00 => Ok(SpiMode::Mode0),
            0x01 => Ok(SpiMode::Mode1),
            0x02 => Ok(SpiMode::Mode2),
            0x03 => Ok(SpiMode::Mode3),
            _ => Err(v),
        }
    }

    pub fn to_u8(self) -> (r: u8)
        ensures
            r == self.spec_u8(),
    {
        match self {
            SpiMode::Mode0 => 0x00,
            SpiMode::Mode1 => 0x01,
            SpiMode::Mode2 => 0x02,
            SpiMode::Mode3 => 0x03,
        }
    }
}

/// SPI timing and framing parameters. Round-trips through frame offsets 4 to
/// 20. The delay fields are in units the chip defines; the bit rate is a
/// 32-bit little-endian value.
#[derive(Copy, Clone, Debug, PartialEq, Eq, Structural)]
pub struct SpiTransferSettings {
    pub bit_rate: u32,
    pub cs_idle: ChipSelect,
    pub cs_active: ChipSelect,
    pub delay_cs_to_data: u16,
    pub delay_last_data_to_cs: u16,
    pub delay_between_data: u16,
    pub bytes_per_tx: u16,
    pub spi_mode: SpiMode,
}

impl Default for SpiTransferSettings {
    /// The fastest bit rate, all chip-select lines idling high and active
    /// low, no extra delays, four bytes per transaction, SPI mode 0.
    fn default() -> (r: SpiTransferSettings)
        ensures
            r == (SpiTransferSettings {
                bit_rate: crate::MAX_BIT_RATE,
                cs_idle: ChipSelect { bits: 0x1ff },
                cs_active: ChipSelect { bits: 0 },
                delay_cs_to_data: 0,
                delay_last_data_to_cs: 0,
                delay_between_data: 0,
                bytes_per_tx: 4,
                spi_mode: SpiMode::Mode0,
            }),
    {
        SpiTransferSettings {
            bit_rate: crate::MAX_BIT_RATE,
            cs_idle: ChipSelect::all_high(),
            cs_active: ChipSelect::all_low(),
            delay_cs_to_data: 0,
            delay_last_data_to_cs: 0,
            delay_between_data: 0,
            bytes_per_tx: 4,
            spi_mode: SpiMode::Mode0,
        }
    }
}

/// Whether frame bytes 4 to 20 hold the wire image of the given settings.
pub open spec fn spi_transfer_settings_encoded(s: SpiTransferSettings, b: Seq<u8>) -> bool {
    &&& b[4] == s.bit_rate as u8
    &&& b[5] == (s.bit_rate >> 8) as u8
    &&& b[6] == (s.bit_rate >> 16) as u8
    &&& b[7] == (s.bit_rate >> 24) as u8
    &&& b[8] == s.cs_idle.bits as u8
    &&& b[9] == (s.cs_idle.bits >> 8) as u8
    &&& b[10] == s.cs_active.bits as u8
    &&& b[11] == (s.cs_active.bits >> 8) as u8
    &&& b[12] == s.delay_cs_to_data as u8
    &&& b[13] == (s.delay_cs_to_data >> 8) as u8
    &&& b[14] == s.delay_last_data_to_cs as u8
    &&& b[15] == (s.delay_last_data_to_cs >> 8) as u8
    &&& b[16] == s.delay_between_data as u8
    &&& b[17] == (s.delay_between_data >> 8) as u8
    &&& b[18] == s.bytes_per_tx as u8
    &&& b[19] == (s.bytes_per_tx >> 8) as u8
    &&& b[20] == s.spi_mode.spec_u8()
}

/// Whether the enumerated field in frame bytes 4 to 20 is within its value
/// set.
pub open spec fn spi_transfer_settings_bytes_valid(b: Seq<u8>) -> bool {
    SpiMode::spec_valid_u8(b[20])
}

/// The settings a valid frame carries.
pub open spec fn spi_transfer_settings_of_bytes(b: Seq<u8>) -> SpiTransferSettings {
    SpiTransferSettings {
        bit_rate: spec_as_u32(b[4], b[5], b[6], b[7]),
        cs_idle: ChipSelect { bits: spec_as_u16(b[8], b[9]) & 0x1ff },
        cs_active: ChipSelect { bits: spec_as_u16(b[10], b[11]) & 0x1ff },
        delay_cs_to_data: spec_as_u16(b[12], b[13]),
        delay_last_data_to_cs: spec_as_u16(b[14], b[15]),
        delay_between_data: spec_as_u16(b[16], b[17]),
        bytes_per_tx: spec_as_u16(b[18], b[19]),
        spi_mode: SpiMode::spec_of_u8(b[20]),
    }
}

impl SpiTransferSettings {
    /// The chip-select bit-sets hold only their nine meaningful bits.
    pub open spec fn wf(self) -> bool {
        self.cs_idle.wf() && self.cs_active.wf()
    }

    pub fn from_buffer(buf: &Buffer) -> (r: Result<SpiTransferSettings, DecodeError>)
        ensures
            spi_transfer_settings_bytes_valid(buf@) ==> r == Result::<
                SpiTransferSettings,
                DecodeError,
            >::Ok(spi_transfer_settings_of_bytes(buf@)),
            !spi_transfer_settings_bytes_valid(buf@) ==> r == Result::<
                SpiTransferSettings,
                DecodeError,
            >::Err(DecodeError { field: DecodeField::SpiMode, value: buf@[20] }),
            r matches Ok(s) ==> s.wf(),
    {
        let spi_mode = match SpiMode::from_u8(buf[20]) {
            Ok(m) => m,
            Err(v) => {
                return Err(DecodeError { field: DecodeField::SpiMode, value: v });
            },
        };
        Ok(
            SpiTransferSettings {
                bit_rate: as_u32(buf[4], buf[5], buf[6], buf[7]),
                cs_idle: ChipSelect::from_bits_truncate(as_u16(buf[8], buf[9])),
                cs_active: ChipSelect::from_bits_truncate(as_u16(buf[10], buf[11])),
                delay_cs_to_data: as_u16(buf[12], buf[13]),
                delay_last_data_to_cs: as_u16(buf[14], buf[15]),
                delay_between_data: as_u16(buf[16], buf[17]),
                bytes_per_tx: as_u16(buf[18], buf[19]),
                spi_mode,
            },
        )
    }

    /// Writes the wire image of these settings into frame bytes 4 to 20,
    /// leaving every other byte unchanged.
    #[verifier::spinoff_prover]
    #[verifier::rlimit(100)]
    pub fn write_to_buffer(&self, buf: &mut Buffer)
        ensures
            spi_transfer_settings_encoded(*self, final(buf)@),
            forall|i: int| 0 <= i < 64 && !(4 <= i <= 20) ==> final(buf)@[i] == old(buf)@[i],
    {
        let cs_idle = self.cs_idle.bits;
        let cs_active = self.cs_active.bits;
        buf[4] = self.bit_rate as u8;
        buf[5] = (self.bit_rate >> 8) as u8;
        buf[6] = (self.bit_rate >> 16) as u8;
        buf[7] = (self.bit_rate >> 24) as u8;
        buf[8] = cs_idle as u8;
        buf[9] = (cs_idle >> 8) as u8;
        buf[10] = cs_active as u8;
        buf[11] = (cs_active >> 8) as u8;
        buf[12] = self.delay_cs_to_data as u8;
        buf[13] = (self.delay_cs_to_data >> 8) as u8;
        buf[14] = self.delay_last_data_to_cs as u8;
        buf[15] = (self.delay_last_data_to_cs >> 8) as u8;
        buf[16] = self.delay_between_data as u8;
        buf[17] = (self.delay_between_data >> 8) as u8;
        buf[18] = self.bytes_per_tx as u8;
        buf[19] = (self.bytes_per_tx >> 8) as u8;
        buf[20] = self.spi_mode.to_u8();
    }
}

/// Splitting a 32-bit value into little-endian bytes and recombining them
/// gives the value back.
proof fn lemma_u32_split_join(v: u32)
    ensures
        spec_as_u32(v as u8, (v >> 8) as u8, (v >> 16) as u8, (v >> 24) as u8) == v,
{
    assert(((((v >> 24) as u8) as u32) << 24) | ((((v >> 16) as u8) as u32) << 16) | ((((v >> 8)
        as u8) as u32) << 8) | ((v as u8) as u32) == v) by (bit_vector);
}

/// Law: decoding the buffer a well-formed `SpiTransferSettings` value was
/// encoded into yields the original value.
pub proof fn lemma_spi_transfer_settings_round_trip(s: SpiTransferSettings, b: Seq<u8>)
    requires
        s.wf(),
        b.len() == 64,
        spi_transfer_settings_encoded(s, b),
    ensures
        spi_transfer_settings_bytes_valid(b),
        spi_transfer_settings_of_bytes(b) == s,
{
    lemma_u32_split_join(s.bit_rate);
    lemma_u16_split_join(s.cs_idle.bits);
    lemma_u16_split_join(s.cs_active.bits);
    lemma_u16_split_join(s.delay_cs_to_data);
    lemma_u16_split_join(s.delay_last_data_to_cs);
    lemma_u16_split_join(s.delay_between_data);
    lemma_u16_split_join(s.bytes_per_tx);
}

// ---------------------------------------------------------------------------
// USB parameters
// ---------------------------------------------------------------------------

/// How the chip reports being powered on the USB side.
#[derive(Copy, Clone, Debug, PartialEq, Eq, Structural)]
pub enum UsbPowerOption {
    SelfPowered,
    HostPowered,
}

impl UsbPowerOption {
    /// The two-bit wire value for this power option.
    pub open spec fn spec_u8(self) -> u8 {
        match self {
            UsbPowerOption::SelfPowered => 0b01,
            UsbPowerOption::HostPowered => 0b10,
        }
    }

    /// Whether a two-bit wire value names a power option.
    pub open spec fn spec_valid_u8(v: u8) -> bool {
        v == 0b01 || v == 0b10
    }

    /// The power option a valid wire value names.
    pub open spec fn spec_of_u8(v: u8) -> UsbPowerOption {
        if v == 0b01 {
            UsbPowerOption::SelfPowered
        } else {
            UsbPowerOption::HostPowered
        }
    }

    pub fn from_u8(v: u8) -> (r: Result<UsbPowerOption, u8>)
        ensures
            Self::spec_valid_u8(v) ==> r == Result::<UsbPowerOption, u8>::Ok(Self::spec_of_u8(v)),
            !Self::spec_valid_u8(v) ==> r == Result::<UsbPowerOption, u8>::Err(v),
    {
        match v {
            0b10 => Ok(UsbPowerOption::HostPowered),
            0b01 => Ok(UsbPowerOption::SelfPowered),
            _ => Err(v),
        }
    }

    pub fn to_u8(self) -> (r: u8)
        ensures
            r == self.spec_u8(),
    {
        match self {
            UsbPowerOption::SelfPowered => 0b01,
            UsbPowerOption::HostPowered => 0b10,
        }
    }
}

/// The chip's USB enumeration parameters. The requested current is in units
/// of 2 mA. The chip reports these fields at frame offsets 12 to 30 but takes
/// new values at offsets 4 to 9, so decode and encode address different
/// regions of the frame.
#[derive(Copy, Clone, Debug, PartialEq, Eq, Structural)]
pub struct UsbParameters {
    pub vid: u16,
    pub pid: u16,
    pub power_option: UsbPowerOption,
    pub remote_wakeup_capable: bool,
    pub requested_current: u8,
}

impl Default for UsbParameters {
    /// The factory identifiers, host powered, no remote wakeup, 100 mA.
    fn default() -> (r: UsbParameters)
        ensures
            r == (UsbParameters {
                vid: 0x04d8,
                pid: 0x00de,
                power_option: UsbPowerOption::HostPowered,
                remote_wakeup_capable: false,
                requested_current: 50,
            }),
    {
        UsbParameters {
            vid: 0x04d8,
            pid: 0x00de,
            power_option: UsbPowerOption::HostPowered,
            remote_wakeup_capable: false,
            requested_current: 50,
        }
    }
}

/// The byte packing the power option (bits 6 to 7) with the
/// remote-wakeup-capable flag (bit 5).
pub open spec fn usb_power_byte(p: UsbParameters) -> u8 {
    (p.power_option.spec_u8() << 6) | (if p.remote_wakeup_capable {
        0x20u8
    } else {
        0u8
    })
}

/// Whether the command frame bytes 4 to 9 hold the wire image of the given
/// parameters.
pub open spec fn usb_parameters_encoded(p: UsbParameters, b: Seq<u8>) -> bool {
    &&& b[4] == p.vid as u8
    &&& b[5] == (p.vid >> 8) as u8
    &&& b[6] == p.pid as u8
    &&& b[7] == (p.pid >> 8) as u8
    &&& b[8] == usb_power_byte(p)
    &&& b[9] == p.requested_current
}

/// Whether the response frame bytes carrying the parameters are within their
/// value sets.
pub open spec fn usb_parameters_bytes_valid(b: Seq<u8>) -> bool {
    UsbPowerOption::spec_valid_u8(b[29] >> 6)
}

/// The parameters a valid response frame carries, at offsets 12 to 30.
pub open spec fn usb_parameters_of_bytes(b: Seq<u8>) -> UsbParameters {
    UsbParameters {
        vid: spec_as_u16(b[12], b[13]),
        pid: spec_as_u16(b[14], b[15]),
        power_option: UsbPowerOption::spec_of_u8(b[29] >> 6),
        remote_wakeup_capable: b[29] & 0x20 != 0,
        requested_current: b[30],
    }
}

/// Whether the response frame bytes 12 to 30 hold the same field values as
/// the given parameters: the response-side image of `usb_parameters_encoded`.
pub open spec fn usb_parameters_reported(p: UsbParameters, b: Seq<u8>) -> bool {
    &&& b[12] == p.vid as u8
    &&& b[13] == (p.vid >> 8) as u8
    &&& b[14] == p.pid as u8
    &&& b[15] == (p.pid >> 8) as u8
    &&& b[29] == usb_power_byte(p)
    &&& b[30] == p.requested_current
}

impl UsbParameters {
    pub fn from_buffer(buf: &Buffer) -> (r: Result<UsbParameters, DecodeError>)
        ensures
            usb_parameters_bytes_valid(buf@) ==> r == Result::<UsbParameters, DecodeError>::Ok(
                usb_parameters_of_bytes(buf@),
            ),
            !usb_parameters_bytes_valid(buf@) ==> r == Result::<UsbParameters, DecodeError>::Err(
                DecodeError { field: DecodeField::PowerOption, value: buf@[29] >> 6 },
            ),
    {
        let power_option = match UsbPowerOption::from_u8(buf[29] >> 6) {
            Ok(p) => p,
            Err(v) => {
                return Err(DecodeError { field: DecodeField::PowerOption, value: v });
            },
        };
        Ok(
            UsbParameters {
                vid: as_u16(buf[12], buf[13]),
                pid: as_u16(buf[14], buf[15]),
                power_option,
                remote_wakeup_capable: buf[29] & 0x20 != 0,
                requested_current: buf[30],
            },
        )
    }

    /// Writes the wire image of these parameters into command frame bytes 4
    /// to 9, leaving every other byte unchanged.
    pub fn write_to_buffer(&self, buf: &mut Buffer)
        ensures
            usb_parameters_encoded(*self, final(buf)@),
            forall|i: int| 0 <= i < 64 && !(4 <= i <= 9) ==> final(buf)@[i] == old(buf)@[i],
    {
        buf[4] = self.vid as u8;
        buf[5] = (self.vid >> 8) as u8;
        buf[6] = self.pid as u8;
        buf[7] = (self.pid >> 8) as u8;
        buf[8] = (self.power_option.to_u8() << 6) | (if self.remote_wakeup_capable {
            0x20u8
        } else {
            0u8
        });
        buf[9] = self.requested_current;
    }
}

/// The two packed fields of the USB power byte read back unchanged.
proof fn lemma_power_byte_fields(p: u8, w: u8)
    requires
        p == 1 || p == 2,
        w == 0 || w == 0x20,
    ensures
        ((p << 6) | w) >> 6 == p,
        ((p << 6) | w) & 0x20 == w,
{
    assert((p == 1 || p == 2) && (w == 0 || w == 0x20) ==> ((p << 6) | w) >> 6 == p)
        by (bit_vector);
    assert((p == 1 || p == 2) && (w == 0 || w == 0x20) ==> ((p << 6) | w) & 0x20 == w)
        by (bit_vector);
}

/// Law: a response frame that reports the field values of a `UsbParameters`
/// value decodes back to that value. The chip reports the fields at other
/// offsets than it takes them, so this is the round trip through the
/// response-side image of the encoding.
pub proof fn lemma_usb_parameters_round_trip(p: UsbParameters, b: Seq<u8>)
    requires
        b.len() == 64,
        usb_parameters_reported(p, b),
    ensures
        usb_parameters_bytes_valid(b),
        usb_parameters_of_bytes(b) == p,
{
    lemma_u16_split_join(p.vid);
    lemma_u16_split_join(p.pid);
    let w: u8 = if p.remote_wakeup_capable {
        0x20u8
    } else {
        0u8
    };
    lemma_power_byte_fields(p.power_option.spec_u8(), w);
}

// ---------------------------------------------------------------------------
// SPI transfer status
// ---------------------------------------------------------------------------

/// How far an SPI transfer has progressed.
#[derive(Copy, Clone, Debug, PartialEq, Eq, Structural)]
pub enum SpiTransferStatus {
    Started,
    Pending,
    Finished,
}

impl SpiTransferStatus {
    /// The wire byte for this status.
    pub open spec fn spec_u8(self) -> u8 {
        match self {
            SpiTransferStatus::Started => 0x20,
            SpiTransferStatus::Pending => 0x30,
            SpiTransferStatus::Finished => 0x10,
        }
    }

    /// Whether a wire byte names a transfer status.
    pub open spec fn spec_valid_u8(v: u8) -> bool {
        v == 0x20 || v == 0x30 || v == 0x10
    }

    /// The status a valid wire byte names.
    pub open spec fn spec_of_u8(v: u8) -> SpiTransferStatus {
        if v == 0x20 {
            SpiTransferStatus::Started
        } else if v == 0x30 {
            SpiTransferStatus::Pending
        } else {
            SpiTransferStatus::Finished
        }
    }

    pub fn from_u8(v: u8) -> (r: Result<SpiTransferStatus, u8>)
        ensures
            Self::spec_valid_u8(v) ==> r == Result::<SpiTransferStatus, u8>::Ok(
                Self::spec_of_u8(v),
            ),
            !Self::spec_valid_u8(v) ==> r == Result::<SpiTransferStatus, u8>::Err(v),
    {
        match v {
            0x20 => Ok(SpiTransferStatus::Started),
            0x30 => Ok(SpiTransferStatus::Pending),
            0x10 => Ok(SpiTransferStatus::Finished),
            _ => Err(v),
        }
    }
}

/// One frame's worth of received SPI data together with the transfer status.
/// The data is a view into the response buffer it was read from; it is never
/// copied implicitly.
#[derive(Clone, Debug)]
pub struct SpiTransferResponse<'a> {
    pub data: &'a [u8],
    pub status: SpiTransferStatus,
}

} // verus!
