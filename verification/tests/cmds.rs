//! Tests for the command/response engine: frame construction, status-code
//! mapping, typed decodes, and the chunked SPI transfer driver, all through
//! scripted transports.

use mcp2210::{
    command_frame, spi_transfer_step, BusOwner, Buffer, CommandResponse, Commands, DecodeError,
    DecodeField, Mcp2210Error, SpiTransferResponse, SpiTransferStatus,
};

/// A transport that records the command frame and answers with a fixed
/// response frame.
struct TestTx {
    cmd: Buffer,
    res: Buffer,
}

impl TestTx {
    fn new(res: &[u8]) -> TestTx {
        assert!(res.len() <= 64);
        let mut tx = TestTx {
            cmd: [0; 64],
            res: [0; 64],
        };
        tx.res[..res.len()].copy_from_slice(res);
        tx
    }
}

impl CommandResponse for TestTx {
    fn command_response(&mut self, cmd: &Buffer, res: &mut Buffer) -> Result<(), String> {
        self.cmd.copy_from_slice(cmd);
        res.copy_from_slice(&self.res);
        Ok(())
    }
}

#[test]
fn test_command_frame() {
    let c = command_frame(0x61, 0x40);
    assert_eq!(c[0], 0x61);
    assert_eq!(c[1], 0x40);
    assert!(c[2..].iter().all(|&b| b == 0));
}

#[test]
fn test_get_chip_status() {
    let mut tx = TestTx::new(&[0x10, 0x00, 0x01, 0x02, 42, 0x01]);
    let mut res: Buffer = [0; 64];
    let status = tx.get_chip_status(&mut res).unwrap();
    let mut expected_cmd = [0u8; 64];
    expected_cmd[0] = 0x10;
    assert_eq!(tx.cmd.as_ref(), expected_cmd.as_ref());
    assert_eq!(status.is_bus_release_pending, false);
    assert_eq!(status.bus_owner, BusOwner::ExternalMaster);
    assert_eq!(status.password_attempt_count, 42);
    assert_eq!(status.is_password_guessed, true);
}

#[test]
fn test_cancel_spi_transfer() {
    let mut tx = TestTx::new(&[0x11, 0x00, 0x00, 0x01, 79, 0x00]);
    let mut res: Buffer = [0; 64];
    let status = tx.cancel_spi_transfer(&mut res).unwrap();
    let mut expected_cmd = [0u8; 64];
    expected_cmd[0] = 0x11;
    assert_eq!(tx.cmd.as_ref(), expected_cmd.as_ref());
    assert_eq!(status.is_bus_release_pending, true);
    assert_eq!(status.bus_owner, BusOwner::UsbBridge);
    assert_eq!(status.password_attempt_count, 79);
    assert_eq!(status.is_password_guessed, false);
}

#[test]
fn test_status_code_mapping() {
    let cases: &[(u8, Mcp2210Error)] = &[
        (0xf7, Mcp2210Error::Unavailable),
        (0xf8, Mcp2210Error::Busy),
        (0xf9, Mcp2210Error::UnknownCommandCode(0x10)),
        (0xfa, Mcp2210Error::EepromWrite),
        (0xfb, Mcp2210Error::AccessDenied),
        (0xfc, Mcp2210Error::AccessRejected),
        (0xfd, Mcp2210Error::AccessDeniedRetry),
        (0x42, Mcp2210Error::UnknownErrorCode(0x42)),
    ];
    for (code, expected) in cases {
        let mut tx = TestTx::new(&[0x10, *code]);
        let mut res: Buffer = [0; 64];
        let err = tx.get_chip_status(&mut res).unwrap_err();
        assert_eq!(err, *expected);
    }
}

#[test]
fn test_command_code_mismatch() {
    let mut tx = TestTx::new(&[0x99, 0x00, 0x01, 0x00, 0, 0x00]);
    let mut res: Buffer = [0; 64];
    let err = tx.get_chip_status(&mut res).unwrap_err();
    assert_eq!(
        err,
        Mcp2210Error::CommandCode {
            expected: 0x10,
            actual: 0x99,
        }
    );
}

#[test]
fn test_sub_command_code_mismatch() {
    let mut tx = TestTx::new(&[0x61, 0x00, 0x99]);
    let mut res: Buffer = [0; 64];
    let err = tx.get_nvram_spi_transfer_settings(&mut res).unwrap_err();
    assert_eq!(
        err,
        Mcp2210Error::SubCommandCode {
            expected: 0x10,
            actual: 0x99,
        }
    );
}

#[test]
fn test_interrupt_event_counter() {
    let mut tx = TestTx::new(&[0x12, 0x00, 0x00, 0x00, 0x34, 0x12]);
    let mut res: Buffer = [0; 64];
    let n = tx.get_interrupt_event_counter(&mut res).unwrap();
    assert_eq!(n, 0x1234);
    assert_eq!(tx.cmd[0], 0x12);
    assert_eq!(tx.cmd[1], 0xff);
    let n = tx.reset_interrupt_event_counter(&mut res).unwrap();
    assert_eq!(n, 0x1234);
    assert_eq!(tx.cmd[1], 0x00);
}

#[test]
fn test_gpio_value_round_trip_over_wire() {
    // Reads truncate to the nine meaningful bits.
    let mut tx = TestTx::new(&[0x31, 0x00, 0x00, 0x00, 0xab, 0xff]);
    let mut res: Buffer = [0; 64];
    let v = tx.get_gpio_value(&mut res).unwrap();
    assert_eq!(v.bits(), 0x01ab);
    // Writes place the bits little-endian at offsets 4 and 5.
    let mut tx = TestTx::new(&[0x30, 0x00]);
    tx.set_gpio_value(v, &mut res).unwrap();
    assert_eq!(tx.cmd[0], 0x30);
    assert_eq!(tx.cmd[4], 0xab);
    assert_eq!(tx.cmd[5], 0x01);
}

#[test]
fn test_gpio_direction_round_trip_over_wire() {
    let mut tx = TestTx::new(&[0x33, 0x00, 0x00, 0x00, 0x55, 0x01]);
    let mut res: Buffer = [0; 64];
    let d = tx.get_gpio_direction(&mut res).unwrap();
    assert_eq!(d.bits(), 0x0155);
    let mut tx = TestTx::new(&[0x32, 0x00]);
    tx.set_gpio_direction(d, &mut res).unwrap();
    assert_eq!(tx.cmd[0], 0x32);
    assert_eq!(tx.cmd[4], 0x55);
    assert_eq!(tx.cmd[5], 0x01);
}

#[test]
fn test_read_eeprom() {
    let mut tx = TestTx::new(&[0x50, 0x00, 0x05, 0x77]);
    let mut res: Buffer = [0; 64];
    let b = tx.read_eeprom(0x05, &mut res).unwrap();
    assert_eq!(b, 0x77);
    assert_eq!(tx.cmd[0], 0x50);
    assert_eq!(tx.cmd[1], 0x05);
}

#[test]
fn test_read_eeprom_address_mismatch() {
    let mut tx = TestTx::new(&[0x50, 0x00, 0x06, 0x77]);
    let mut res: Buffer = [0; 64];
    let err = tx.read_eeprom(0x05, &mut res).unwrap_err();
    assert_eq!(
        err,
        Mcp2210Error::InvalidResponse(DecodeError {
            field: DecodeField::EepromAddress,
            value: 0x06,
        })
    );
}

#[test]
fn test_write_eeprom_frame() {
    let mut tx = TestTx::new(&[0x51, 0x00]);
    let mut res: Buffer = [0; 64];
    tx.write_eeprom(0x21, 0x42, &mut res).unwrap();
    assert_eq!(tx.cmd[0], 0x51);
    assert_eq!(tx.cmd[1], 0x21);
    assert_eq!(tx.cmd[2], 0x42);
}

#[test]
fn test_send_access_password_frame() {
    let mut tx = TestTx::new(&[0x70, 0x00]);
    let mut res: Buffer = [0; 64];
    tx.send_access_password(&[1, 2, 3, 4, 5, 6, 7, 8], &mut res)
        .unwrap();
    assert_eq!(tx.cmd[0], 0x70);
    assert_eq!(&tx.cmd[4..12], &[1, 2, 3, 4, 5, 6, 7, 8]);
}

#[test]
fn test_request_bus_release_frame() {
    let mut tx = TestTx::new(&[0x80, 0x00]);
    let mut res: Buffer = [0; 64];
    tx.request_bus_release(true, &mut res).unwrap();
    assert_eq!(tx.cmd[0], 0x80);
    assert_eq!(tx.cmd[1], 0x01);
    tx.request_bus_release(false, &mut res).unwrap();
    assert_eq!(tx.cmd[1], 0x00);
}

#[test]
fn test_spi_transfer_payload_too_large() {
    let mut tx = TestTx::new(&[0x42, 0x00]);
    let data = [0u8; 61];
    let mut res: Buffer = [0; 64];
    let err = tx.spi_transfer(&data, &mut res).unwrap_err();
    assert_eq!(err, Mcp2210Error::PayloadSize(61));
}

#[test]
fn test_spi_transfer_decodes_length_and_status() {
    let mut tx = TestTx::new(&[0x42, 0x00, 0x03, 0x30, 0xde, 0xad, 0xbe]);
    let mut res: Buffer = [0; 64];
    let resp = tx.spi_transfer(&[0x01, 0x02], &mut res).unwrap();
    assert_eq!(resp.status, SpiTransferStatus::Pending);
    assert_eq!(resp.data, &[0xde, 0xad, 0xbe]);
    assert_eq!(tx.cmd[0], 0x42);
    assert_eq!(tx.cmd[1], 2);
    assert_eq!(&tx.cmd[4..6], &[0x01, 0x02]);
}

#[test]
fn test_spi_transfer_rejects_bad_status_byte() {
    let mut tx = TestTx::new(&[0x42, 0x00, 0x00, 0x77]);
    let mut res: Buffer = [0; 64];
    let err = tx.spi_transfer(&[], &mut res).unwrap_err();
    assert_eq!(
        err,
        Mcp2210Error::InvalidResponse(DecodeError {
            field: DecodeField::SpiTransferStatus,
            value: 0x77,
        })
    );
}

#[test]
fn test_spi_transfer_rejects_oversized_length_byte() {
    let mut tx = TestTx::new(&[0x42, 0x00, 61, 0x10]);
    let mut res: Buffer = [0; 64];
    let err = tx.spi_transfer(&[], &mut res).unwrap_err();
    assert_eq!(
        err,
        Mcp2210Error::InvalidResponse(DecodeError {
            field: DecodeField::SpiDataLength,
            value: 61,
        })
    );
}

#[test]
fn test_spi_transfer_step() {
    // A successful response appends its data and advances the cursor.
    let mut pos: usize = 3;
    let mut buf: Vec<u8> = vec![0x01];
    let resp = SpiTransferResponse {
        data: &[0xaa, 0x55],
        status: SpiTransferStatus::Pending,
    };
    assert_eq!(spi_transfer_step(Ok(resp), 2, &mut pos, &mut buf), Ok(false));
    assert_eq!(pos, 5);
    assert_eq!(buf, [0x01, 0xaa, 0x55]);
    // A Finished response does the same and reports completion.
    let resp = SpiTransferResponse {
        data: &[0x99],
        status: SpiTransferStatus::Finished,
    };
    assert_eq!(spi_transfer_step(Ok(resp), 0, &mut pos, &mut buf), Ok(true));
    assert_eq!(pos, 5);
    assert_eq!(buf, [0x01, 0xaa, 0x55, 0x99]);
    // Busy changes nothing, so the same chunk is retried.
    assert_eq!(
        spi_transfer_step(Err(Mcp2210Error::Busy), 2, &mut pos, &mut buf),
        Ok(false)
    );
    assert_eq!(pos, 5);
    assert_eq!(buf, [0x01, 0xaa, 0x55, 0x99]);
    // Any other error aborts, changing nothing.
    assert_eq!(
        spi_transfer_step(Err(Mcp2210Error::AccessDenied), 2, &mut pos, &mut buf),
        Err(Mcp2210Error::AccessDenied)
    );
    assert_eq!(pos, 5);
    assert_eq!(buf, [0x01, 0xaa, 0x55, 0x99]);
}

/// A transport that only remembers whether it was used at all.
struct NoIoTx {
    used: bool,
}

impl CommandResponse for NoIoTx {
    fn command_response(&mut self, _cmd: &Buffer, _res: &mut Buffer) -> Result<(), String> {
        self.used = true;
        Err("no device".to_string())
    }
}

#[test]
fn test_string_too_long_attempts_no_io() {
    let mut tx = NoIoTx { used: false };
    let mut res: Buffer = [0; 64];
    let name: String = "x".repeat(30);
    let err = tx.set_nvram_usb_product_name(&name, &mut res).unwrap_err();
    assert_eq!(err, Mcp2210Error::StringSize(30));
    let err = tx.set_nvram_usb_vendor_name(&name, &mut res).unwrap_err();
    assert_eq!(err, Mcp2210Error::StringSize(30));
    assert!(!tx.used);
    // A multi-byte name is measured in UTF-16 code units, not characters:
    // fifteen two-unit emoji exceed the limit even though only 15 chars long.
    let name: String = "\u{1F600}".repeat(15);
    let err = tx.set_nvram_usb_product_name(&name, &mut res).unwrap_err();
    assert_eq!(err, Mcp2210Error::StringSize(30));
    assert!(!tx.used);
}

#[test]
fn test_set_nvram_usb_product_name_frame() {
    let mut tx = TestTx::new(&[0x60, 0x00, 0x40]);
    let mut res: Buffer = [0; 64];
    tx.set_nvram_usb_product_name("ab", &mut res).unwrap();
    assert_eq!(tx.cmd[0], 0x60);
    assert_eq!(tx.cmd[1], 0x40);
    assert_eq!(tx.cmd[4], 2 * 2 + 2);
    assert_eq!(tx.cmd[5], 0x03);
    assert_eq!(&tx.cmd[6..10], &[0x61, 0x00, 0x62, 0x00]);
}

#[test]
fn test_set_nvram_usb_vendor_name_frame() {
    let mut tx = TestTx::new(&[0x60, 0x00, 0x50]);
    let mut res: Buffer = [0; 64];
    tx.set_nvram_usb_vendor_name("보라색", &mut res).unwrap();
    assert_eq!(tx.cmd[0], 0x60);
    assert_eq!(tx.cmd[1], 0x50);
    assert_eq!(tx.cmd[4], 3 * 2 + 2);
    assert_eq!(tx.cmd[5], 0x03);
    assert_eq!(&tx.cmd[6..12], &[0xf4, 0xbc, 0x7c, 0xb7, 0xc9, 0xc0]);
}

#[test]
fn test_get_nvram_usb_product_name() {
    let mut res_frame = vec![0x61, 0x00, 0x40, 0x00, 6, 0x03];
    res_frame.extend_from_slice(&[0x48, 0x00, 0x69, 0x00]); // "Hi" in UTF-16LE
    let mut tx = TestTx::new(&res_frame);
    let mut res: Buffer = [0; 64];
    let name = tx.get_nvram_usb_product_name(&mut res).unwrap();
    assert_eq!(name, "Hi");
}

#[test]
fn test_nvram_name_wire_round_trip() {
    // Store a name, then answer the getter with the very bytes the setter
    // emitted: the name must come back unchanged.
    let name = "보라색 고양이";
    let mut tx = TestTx::new(&[0x60, 0x00, 0x40]);
    let mut res: Buffer = [0; 64];
    tx.set_nvram_usb_product_name(name, &mut res).unwrap();
    let mut reply = [0u8; 64];
    reply[0] = 0x61;
    reply[1] = 0x00;
    reply[2] = 0x40;
    reply[4..64].copy_from_slice(&tx.cmd[4..64]);
    let mut tx = TestTx::new(&reply);
    let read_back = tx.get_nvram_usb_product_name(&mut res).unwrap();
    assert_eq!(read_back, name);
}

#[test]
fn test_get_nvram_usb_vendor_name_rejects_bad_prefix() {
    // An odd length prefix cannot be a whole number of code units.
    let mut tx = TestTx::new(&[0x61, 0x00, 0x50, 0x00, 5, 0x03]);
    let mut res: Buffer = [0; 64];
    let err = tx.get_nvram_usb_vendor_name(&mut res).unwrap_err();
    assert_eq!(
        err,
        Mcp2210Error::InvalidResponse(DecodeError {
            field: DecodeField::StringLength,
            value: 5,
        })
    );
}

/// A transport that echoes SPI payloads back with a one-exchange delay:
/// the first transfer reports `Started` with no data, each later transfer
/// hands back what the previous one sent and reports `Finished` once
/// everything sent has been returned.
struct LoopbackTx {
    stored: Vec<u8>,
    first: bool,
}

impl CommandResponse for LoopbackTx {
    fn command_response(&mut self, cmd: &Buffer, res: &mut Buffer) -> Result<(), String> {
        assert_eq!(cmd[0], 0x42);
        let len = cmd[1] as usize;
        *res = [0; 64];
        res[0] = 0x42;
        res[1] = 0x00;
        if self.first {
            self.first = false;
            self.stored = cmd[4..4 + len].to_vec();
            res[2] = 0;
            res[3] = 0x20; // Started
        } else {
            res[2] = self.stored.len() as u8;
            res[4..4 + self.stored.len()].copy_from_slice(&self.stored);
            self.stored = cmd[4..4 + len].to_vec();
            res[3] = 0x10; // Finished
        }
        Ok(())
    }
}

#[test]
fn test_spi_transfer_to_end_loopback() {
    let mut tx = LoopbackTx {
        stored: Vec::new(),
        first: true,
    };
    let mut buf: Vec<u8> = Vec::new();
    tx.spi_transfer_to_end(&[0xaa, 0x55], &mut buf).unwrap();
    assert_eq!(buf, [0xaa, 0x55]);
}

#[test]
fn test_spi_transfer_to_end_keeps_prior_contents() {
    let mut tx = LoopbackTx {
        stored: Vec::new(),
        first: true,
    };
    let mut buf: Vec<u8> = vec![0x01];
    tx.spi_transfer_to_end(&[0xaa, 0x55], &mut buf).unwrap();
    assert_eq!(buf, [0x01, 0xaa, 0x55]);
}

#[test]
fn test_spi_transfer_to_end_rejects_unexpected_start() {
    // The first exchange must report Started; Finished at once is an error.
    let mut tx = TestTx::new(&[0x42, 0x00, 0x00, 0x10]);
    let mut buf: Vec<u8> = Vec::new();
    let err = tx.spi_transfer_to_end(&[0xaa], &mut buf).unwrap_err();
    assert_eq!(
        err,
        Mcp2210Error::TransferStatus(SpiTransferStatus::Finished)
    );
    assert!(buf.is_empty());
}
