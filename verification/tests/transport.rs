//! Transport adapter tests: exact transactions for both buses.

use ssd1306::bus::BusOp;
use ssd1306::i2c_interface::{I2CDisplayInterface, I2CInterface};
use ssd1306::spi_interface::SPIInterface;
use ssd1306::{DataFormat, DisplayError, WriteOnlyDataCommand};

#[test]
fn i2c_command_three_bytes_is_one_transaction() {
    let iface = I2CDisplayInterface::new(());
    let ops = iface
        .send_commands(&DataFormat::U8(vec![0x21, 0x00, 0x7f]))
        .unwrap();
    assert_eq!(
        ops,
        vec![BusOp::I2cWrite {
            addr: 0x3c,
            bytes: vec![0x00, 0x21, 0x00, 0x7f],
        }]
    );
}

#[test]
fn i2c_command_empty_payload_sends_the_control_byte() {
    let iface = I2CDisplayInterface::new(());
    let ops = iface.send_commands(&DataFormat::U8(vec![])).unwrap();
    assert_eq!(
        ops,
        vec![BusOp::I2cWrite {
            addr: 0x3c,
            bytes: vec![0x00],
        }]
    );
}

#[test]
fn i2c_command_rejects_word_payloads() {
    let iface = I2CDisplayInterface::new(());
    let r = iface.send_commands(&DataFormat::U16(vec![1, 2]));
    assert_eq!(r.unwrap_err(), DisplayError::DataFormatNotImplemented);
}

#[test]
fn i2c_data_chunks_at_sixteen_bytes() {
    let iface = I2CDisplayInterface::new(());
    let payload: Vec<u8> = (0u8..40).collect();
    let ops = iface.send_data(&DataFormat::U8(payload.clone())).unwrap();
    assert_eq!(ops.len(), 3);
    let mut expected_first = vec![0x40u8];
    expected_first.extend_from_slice(&payload[0..16]);
    let mut expected_last = vec![0x40u8];
    expected_last.extend_from_slice(&payload[32..40]);
    assert_eq!(
        ops[0],
        BusOp::I2cWrite {
            addr: 0x3c,
            bytes: expected_first,
        }
    );
    assert_eq!(
        ops[2],
        BusOp::I2cWrite {
            addr: 0x3c,
            bytes: expected_last,
        }
    );
}

#[test]
fn i2c_data_empty_is_no_transaction() {
    let iface = I2CDisplayInterface::new(());
    let ops = iface.send_data(&DataFormat::U8(vec![])).unwrap();
    assert!(ops.is_empty());
}

#[test]
fn i2c_data_iterator_payload_chunks_like_a_slice() {
    let iface = I2CDisplayInterface::new(());
    let payload: Vec<u8> = (0u8..20).collect();
    let from_slice = iface.send_data(&DataFormat::U8(payload.clone())).unwrap();
    let from_iter = iface.send_data(&DataFormat::U8Iter(payload)).unwrap();
    assert_eq!(from_slice, from_iter);
}

#[test]
fn i2c_data_rejects_word_payloads() {
    let iface = I2CDisplayInterface::new(());
    let r = iface.send_data(&DataFormat::U16LE(vec![1]));
    assert_eq!(r.unwrap_err(), DisplayError::DataFormatNotImplemented);
}

#[test]
fn i2c_addresses() {
    let d = I2CDisplayInterface::new(());
    let ops = d.send_commands(&DataFormat::U8(vec![0xaf])).unwrap();
    assert_eq!(
        ops[0],
        BusOp::I2cWrite {
            addr: 0x3c,
            bytes: vec![0x00, 0xaf],
        }
    );
    let alt = I2CDisplayInterface::new_alternate_address(());
    let ops = alt.send_commands(&DataFormat::U8(vec![0xaf])).unwrap();
    assert_eq!(
        ops[0],
        BusOp::I2cWrite {
            addr: 0x3d,
            bytes: vec![0x00, 0xaf],
        }
    );
    let custom = I2CDisplayInterface::new_custom_address((), 0x42);
    let ops = custom.send_commands(&DataFormat::U8(vec![0xaf])).unwrap();
    assert_eq!(
        ops[0],
        BusOp::I2cWrite {
            addr: 0x42,
            bytes: vec![0x00, 0xaf],
        }
    );
}

#[test]
fn i2c_interface_release_returns_peripheral() {
    let iface = I2CInterface::new(7u32, 0x3c, 0x40);
    assert_eq!(iface.release(), 7u32);
}

#[test]
fn spi_data_forty_bytes_two_writes_dc_high_cs_once() {
    let iface = SPIInterface::new((), ());
    let payload: Vec<u8> = (0u8..40).collect();
    let ops = iface.send_data(&DataFormat::U8(payload.clone())).unwrap();
    assert_eq!(ops.len(), 5);
    assert_eq!(ops[0], BusOp::DataCommandPin { high: true });
    assert_eq!(ops[1], BusOp::ChipSelectPin { high: false });
    assert_eq!(
        ops[2],
        BusOp::SpiWrite {
            bytes: payload[0..32].to_vec(),
        }
    );
    assert_eq!(
        ops[3],
        BusOp::SpiWrite {
            bytes: payload[32..40].to_vec(),
        }
    );
    assert_eq!(ops[4], BusOp::ChipSelectPin { high: true });
    // The data/command line is set exactly once, to data, and chip-select
    // is asserted exactly once for the whole operation.
    let dc_changes = ops
        .iter()
        .filter(|op| matches!(op, BusOp::DataCommandPin { .. }))
        .count();
    let cs_asserts = ops
        .iter()
        .filter(|op| matches!(op, BusOp::ChipSelectPin { high: false }))
        .count();
    assert_eq!(dc_changes, 1);
    assert_eq!(cs_asserts, 1);
}

#[test]
fn spi_commands_hold_dc_low() {
    let iface = SPIInterface::new((), ());
    let ops = iface
        .send_commands(&DataFormat::U8(vec![0xae, 0xa4, 0xaf]))
        .unwrap();
    assert_eq!(
        ops,
        vec![
            BusOp::DataCommandPin { high: false },
            BusOp::ChipSelectPin { high: false },
            BusOp::SpiWrite {
                bytes: vec![0xae, 0xa4, 0xaf],
            },
            BusOp::ChipSelectPin { high: true },
        ]
    );
}

#[test]
fn spi_empty_payload_still_frames_the_operation() {
    let iface = SPIInterface::new((), ());
    let ops = iface.send_data(&DataFormat::U8(vec![])).unwrap();
    // The data/command line is still set and chip-select still cycles;
    // only the writes are absent.
    assert_eq!(
        ops,
        vec![
            BusOp::DataCommandPin { high: true },
            BusOp::ChipSelectPin { high: false },
            BusOp::ChipSelectPin { high: true },
        ]
    );
}

#[test]
fn spi_word_payloads_serialize_by_byte_order() {
    let iface = SPIInterface::new((), ());
    let ops = iface
        .send_data(&DataFormat::U16BE(vec![0x1234, 0xa5b6]))
        .unwrap();
    assert_eq!(
        ops[2],
        BusOp::SpiWrite {
            bytes: vec![0x12, 0x34, 0xa5, 0xb6],
        }
    );
    let ops = iface
        .send_data(&DataFormat::U16LE(vec![0x1234, 0xa5b6]))
        .unwrap();
    assert_eq!(
        ops[2],
        BusOp::SpiWrite {
            bytes: vec![0x34, 0x12, 0xb6, 0xa5],
        }
    );
    let ops = iface
        .send_data(&DataFormat::U16BEIter(vec![0x1234]))
        .unwrap();
    assert_eq!(
        ops[2],
        BusOp::SpiWrite {
            bytes: vec![0x12, 0x34],
        }
    );
}

#[test]
fn spi_native_word_payload_uses_the_machine_byte_order() {
    let iface = SPIInterface::new((), ());
    let ops = iface.send_data(&DataFormat::U16(vec![0x1234])).unwrap();
    // One of the two serializations, uniformly; never the words unscathed.
    let bytes = match &ops[2] {
        BusOp::SpiWrite { bytes } => bytes.clone(),
        other => panic!("expected a write, got {:?}", other),
    };
    assert!(bytes == vec![0x34, 0x12] || bytes == vec![0x12, 0x34]);
}

#[test]
fn spi_sixteen_bit_payloads_chunk_at_sixty_four_bytes() {
    let iface = SPIInterface::new((), ());
    let words: Vec<u16> = (0u16..40).collect();
    let ops = iface.send_data(&DataFormat::U16BE(words)).unwrap();
    // 80 bytes of payload: one full 64-byte chunk and a 16-byte remainder.
    assert_eq!(ops.len(), 5);
    match (&ops[2], &ops[3]) {
        (BusOp::SpiWrite { bytes: a }, BusOp::SpiWrite { bytes: b }) => {
            assert_eq!(a.len(), 64);
            assert_eq!(b.len(), 16);
        }
        other => panic!("expected two writes, got {:?}", other),
    }
}

#[test]
fn spi_interface_release_returns_parts() {
    let iface = SPIInterface::new(1u8, 2u8);
    assert_eq!(iface.release(), (1u8, 2u8));
}
