//! Tests for the typed record layer: decode validation, encode layout, and
//! the encode/decode round-trip laws on concrete values.

use mcp2210::{
    is_factory_device, BusOwner, ChipSelect, ChipSettings, ChipStatus, DecodeError, DecodeField,
    GpioDirection, GpioValue, InterruptMode, NvramAccessControl, PinMode, SpiMode,
    SpiTransferSettings, SpiTransferStatus, UsbParameters, UsbPowerOption, FACTORY_PID,
    FACTORY_VID, MAX_BIT_RATE,
};

#[test]
fn test_is_factory_device() {
    assert!(is_factory_device(FACTORY_VID, FACTORY_PID));
    assert!(is_factory_device(0x04d8, 0x00de));
    assert!(!is_factory_device(0x04d8, 0x00df));
    assert!(!is_factory_device(0x04d9, 0x00de));
}

#[test]
fn test_chip_status_decode() {
    let mut buf = [0u8; 64];
    buf[2] = 0x01;
    buf[3] = 0x00;
    buf[4] = 7;
    buf[5] = 0x00;
    let status = ChipStatus::from_buffer(&buf).unwrap();
    assert_eq!(status.is_bus_release_pending, false);
    assert_eq!(status.bus_owner, BusOwner::NoOwner);
    assert_eq!(status.password_attempt_count, 7);
    assert_eq!(status.is_password_guessed, false);
}

#[test]
fn test_chip_status_decode_rejects_bad_bytes() {
    let mut buf = [0u8; 64];
    buf[2] = 0x02;
    let err = ChipStatus::from_buffer(&buf).unwrap_err();
    assert_eq!(
        err,
        DecodeError {
            field: DecodeField::IsBusReleasePending,
            value: 0x02,
        }
    );
    let mut buf = [0u8; 64];
    buf[3] = 0x05;
    let err = ChipStatus::from_buffer(&buf).unwrap_err();
    assert_eq!(
        err,
        DecodeError {
            field: DecodeField::BusOwner,
            value: 0x05,
        }
    );
    let mut buf = [0u8; 64];
    buf[5] = 0xff;
    let err = ChipStatus::from_buffer(&buf).unwrap_err();
    assert_eq!(
        err,
        DecodeError {
            field: DecodeField::IsPasswordGuessed,
            value: 0xff,
        }
    );
}

#[test]
fn test_chip_settings_round_trip() {
    let settings = ChipSettings {
        gp0_mode: PinMode::Gpio,
        gp1_mode: PinMode::ChipSelect,
        gp2_mode: PinMode::Dedicated,
        gp3_mode: PinMode::Gpio,
        gp4_mode: PinMode::ChipSelect,
        gp5_mode: PinMode::Dedicated,
        gp6_mode: PinMode::Gpio,
        gp7_mode: PinMode::ChipSelect,
        gp8_mode: PinMode::Dedicated,
        default_gpio_value: GpioValue::from_bits_truncate(0x015a),
        default_gpio_direction: GpioDirection::from_bits_truncate(0x00a5),
        remote_wakeup: true,
        interrupt_mode: InterruptMode::LowPulses,
        bus_release: false,
        nvram_access_control: NvramAccessControl::Password,
    };
    let mut buf = [0u8; 64];
    settings.write_to_buffer(&mut buf);
    let decoded = ChipSettings::from_buffer(&buf).unwrap();
    assert_eq!(decoded, settings);
    // The packed flags byte: wakeup bit 4, mode 0b011 in bits 1 to 3, and
    // the inverted bus-release flag in bit 0.
    assert_eq!(buf[17], 0b1_0111);
    assert_eq!(buf[18], 0x40);
}

#[test]
fn test_chip_settings_decode_rejects_bad_bytes() {
    let mut buf = [0u8; 64];
    buf[7] = 0x03;
    let err = ChipSettings::from_buffer(&buf).unwrap_err();
    assert_eq!(
        err,
        DecodeError {
            field: DecodeField::Gp3Mode,
            value: 0x03,
        }
    );
    let mut buf = [0u8; 64];
    buf[17] = 0b1110; // interrupt mode bits decode to 0b111
    let err = ChipSettings::from_buffer(&buf).unwrap_err();
    assert_eq!(
        err,
        DecodeError {
            field: DecodeField::InterruptMode,
            value: 0b111,
        }
    );
    let mut buf = [0u8; 64];
    buf[18] = 0x41;
    let err = ChipSettings::from_buffer(&buf).unwrap_err();
    assert_eq!(
        err,
        DecodeError {
            field: DecodeField::NvramAccessControl,
            value: 0x41,
        }
    );
}

#[test]
fn test_spi_transfer_settings_round_trip() {
    let settings = SpiTransferSettings {
        bit_rate: 12_000_000,
        cs_idle: ChipSelect::from_bits_truncate(0x01ff),
        cs_active: ChipSelect::from_bits_truncate(0x0001),
        delay_cs_to_data: 0x1234,
        delay_last_data_to_cs: 0x0042,
        delay_between_data: 0xffff,
        bytes_per_tx: 2,
        spi_mode: SpiMode::Mode3,
    };
    let mut buf = [0u8; 64];
    settings.write_to_buffer(&mut buf);
    let decoded = SpiTransferSettings::from_buffer(&buf).unwrap();
    assert_eq!(decoded, settings);
    // 12,000,000 little-endian is 00 1b b7 00.
    assert_eq!(&buf[4..8], &[0x00, 0x1b, 0xb7, 0x00]);
    assert_eq!(buf[20], 0x03);
}

#[test]
fn test_spi_transfer_settings_decode_rejects_bad_mode() {
    let mut buf = [0u8; 64];
    buf[20] = 0x04;
    let err = SpiTransferSettings::from_buffer(&buf).unwrap_err();
    assert_eq!(
        err,
        DecodeError {
            field: DecodeField::SpiMode,
            value: 0x04,
        }
    );
}

#[test]
fn test_spi_transfer_settings_default() {
    let settings = SpiTransferSettings::default();
    assert_eq!(settings.bit_rate, MAX_BIT_RATE);
    assert_eq!(settings.cs_idle.bits(), 0x1ff);
    assert_eq!(settings.cs_active.bits(), 0x000);
    assert_eq!(settings.delay_cs_to_data, 0);
    assert_eq!(settings.bytes_per_tx, 4);
    assert_eq!(settings.spi_mode, SpiMode::Mode0);
}

#[test]
fn test_usb_parameters_round_trip() {
    let params = UsbParameters {
        vid: 0x04d8,
        pid: 0x00de,
        power_option: UsbPowerOption::SelfPowered,
        remote_wakeup_capable: true,
        requested_current: 0x32,
    };
    let mut cmd = [0u8; 64];
    params.write_to_buffer(&mut cmd);
    // The set command takes the fields at offsets 4 to 9; the chip reports
    // them at offsets 12 to 30. Lay the encoded fields out as a response.
    let mut res = [0u8; 64];
    res[12..16].copy_from_slice(&cmd[4..8]);
    res[29] = cmd[8];
    res[30] = cmd[9];
    let decoded = UsbParameters::from_buffer(&res).unwrap();
    assert_eq!(decoded, params);
    assert_eq!(cmd[8], 0b0110_0000);
}

#[test]
fn test_usb_parameters_decode_rejects_bad_power_option() {
    let mut res = [0u8; 64];
    res[29] = 0b1100_0000;
    let err = UsbParameters::from_buffer(&res).unwrap_err();
    assert_eq!(
        err,
        DecodeError {
            field: DecodeField::PowerOption,
            value: 0b11,
        }
    );
}

#[test]
fn test_usb_parameters_default() {
    let params = UsbParameters::default();
    assert_eq!(params.vid, 0x04d8);
    assert_eq!(params.pid, 0x00de);
    assert_eq!(params.power_option, UsbPowerOption::HostPowered);
    assert_eq!(params.remote_wakeup_capable, false);
    assert_eq!(params.requested_current, 50);
}

#[test]
fn test_gpio_defaults_and_truncation() {
    assert_eq!(GpioValue::default().bits(), 0x1ff);
    assert_eq!(GpioDirection::default().bits(), 0x1ff);
    assert_eq!(GpioValue::from_bits_truncate(0xffff).bits(), 0x1ff);
    assert_eq!(GpioDirection::from_bits_truncate(0x0200).bits(), 0x000);
    assert_eq!(ChipSelect::from_bits_truncate(0x03aa).bits(), 0x1aa);
    assert_eq!(GpioValue::all_high(), GpioValue::default());
    assert_eq!(GpioValue::all_low().bits(), 0);
    assert_eq!(GpioDirection::all_inputs(), GpioDirection::default());
    assert_eq!(GpioDirection::all_outputs().bits(), 0);
    assert_eq!(ChipSelect::all_high().bits(), 0x1ff);
    assert_eq!(ChipSelect::all_low().bits(), 0);
}

#[test]
fn test_enum_wire_values() {
    assert_eq!(PinMode::from_u8(0x01), Ok(PinMode::ChipSelect));
    assert_eq!(PinMode::from_u8(0x03), Err(0x03));
    assert_eq!(BusOwner::from_u8(0x02), Ok(BusOwner::ExternalMaster));
    assert_eq!(BusOwner::from_u8(0x03), Err(0x03));
    assert_eq!(InterruptMode::from_u8(0b100), Ok(InterruptMode::HighPulses));
    assert_eq!(InterruptMode::from_u8(0b101), Err(0b101));
    assert_eq!(
        NvramAccessControl::from_u8(0x80),
        Ok(NvramAccessControl::PermanentlyLocked)
    );
    assert_eq!(NvramAccessControl::from_u8(0x20), Err(0x20));
    assert_eq!(UsbPowerOption::from_u8(0b01), Ok(UsbPowerOption::SelfPowered));
    assert_eq!(UsbPowerOption::from_u8(0b00), Err(0b00));
    assert_eq!(SpiMode::from_u8(0x02), Ok(SpiMode::Mode2));
    assert_eq!(SpiMode::from_u8(0x04), Err(0x04));
    assert_eq!(
        SpiTransferStatus::from_u8(0x20),
        Ok(SpiTransferStatus::Started)
    );
    assert_eq!(
        SpiTransferStatus::from_u8(0x30),
        Ok(SpiTransferStatus::Pending)
    );
    assert_eq!(
        SpiTransferStatus::from_u8(0x10),
        Ok(SpiTransferStatus::Finished)
    );
    assert_eq!(SpiTransferStatus::from_u8(0x00), Err(0x00));
    assert_eq!(InterruptMode::default(), InterruptMode::Disabled);
    assert_eq!(
        NvramAccessControl::default(),
        NvramAccessControl::NotProtected
    );
}
