use bme680_chip::bme680_map::Bme680FieldMap;
use bme680_chip::chip::{Bus, Chip, I2CError};
use bme680_chip::chip_map::NoFieldMap;

#[derive(Debug, Clone, PartialEq)]
struct Nack;

/// A register file at one bus address that records every transaction.
struct MockBus {
    addr: u8,
    regs: [u8; 256],
    log: Vec<(u8, Vec<u8>, usize)>,
    fail_at: Option<usize>,
}

impl MockBus {
    fn new(addr: u8) -> Self {
        MockBus { addr, regs: [0; 256], log: Vec::new(), fail_at: None }
    }
}

impl Bus for MockBus {
    type Error = Nack;

    fn write_read(&mut self, address: u8, bytes: &[u8], buffer: &mut [u8]) -> Result<(), Nack> {
        let n = self.log.len();
        self.log.push((address, bytes.to_vec(), buffer.len()));
        if address != self.addr || self.fail_at == Some(n) {
            return Err(Nack);
        }
        let reg = bytes[0] as usize;
        if bytes.len() > 1 {
            for (i, b) in bytes[1..].iter().enumerate() {
                self.regs[(reg + i) % 256] = *b;
            }
        } else {
            for (i, slot) in buffer.iter_mut().enumerate() {
                *slot = self.regs[(reg + i) % 256];
            }
        }
        Ok(())
    }
}

fn bme_chip(seed: &[(u8, u8)]) -> Chip<MockBus, Bme680FieldMap> {
    let mut bus = MockBus::new(0x76);
    for (r, v) in seed {
        bus.regs[*r as usize] = *v;
    }
    Chip::new(bus, 0x76)
}

#[test]
fn write_field_keeps_other_bits() {
    // (name, register, offset, width)
    let fields = [
        ("filter", 0x75u8, 2u32, 3u32),
        ("osrs_t", 0x74, 5, 3),
        ("osrs_p", 0x74, 2, 3),
        ("mode", 0x74, 0, 2),
        ("run_gas", 0x71, 4, 1),
        ("nb_conv", 0x71, 0, 4),
        ("heat_off", 0x70, 3, 1),
        ("ctrl_gas_0", 0x70, 4, 2),
    ];
    for seed in [0x00u8, 0xA5, 0x5A, 0xFF, 0x3C] {
        for (name, reg, offset, width) in fields {
            let mut chip = bme_chip(&[(reg, seed)]);
            let ones = ((1u32 << width) - 1) as u8;
            chip.write_field(name, ones).unwrap();
            let after = chip.i2c.regs[reg as usize];
            let mask = (((1u32 << width) - 1) << offset) as u8;
            assert_eq!(after & !mask, seed & !mask, "{} seed {:#x}", name, seed);
            assert_eq!(after & mask, mask);
        }
    }
}

#[test]
fn write_field_masks_oversized_value() {
    let mut chip = bme_chip(&[(0x75, 0b1110_0011)]);
    chip.write_field("filter", 0xFF).unwrap();
    assert_eq!(chip.i2c.regs[0x75], 0b1111_1111);
    chip.write_field("filter", 0b1000).unwrap();
    assert_eq!(chip.i2c.regs[0x75], 0b1110_0011);
}

#[test]
fn write_then_read_field_round_trips() {
    let fields = [("filter", 3u32), ("osrs_t", 3), ("mode", 2), ("run_gas", 1), ("nb_conv", 4), ("ctrl_meas", 8)];
    for (name, width) in fields {
        for v in 0..(1u32 << width) {
            let mut chip = bme_chip(&[(0x75, 0x93), (0x74, 0x6C), (0x71, 0xE7)]);
            chip.write_field(name, v as u8).unwrap();
            assert_eq!(chip.read_field(name).unwrap(), v as u8, "{} {}", name, v);
        }
    }
}

#[test]
fn field_read_modify_write_is_two_transactions() {
    let mut chip = bme_chip(&[(0x74, 0b1010_1010)]);
    chip.write_field("mode", 0b01).unwrap();
    assert_eq!(chip.i2c.log.len(), 2);
    assert_eq!(chip.i2c.log[0], (0x76, vec![0x74], 1));
    assert_eq!(chip.i2c.log[1].1, vec![0x74, 0b1010_1001]);
}

#[test]
fn full_width_field_is_the_register() {
    let mut chip = bme_chip(&[(0x74, 0x12)]);
    chip.write_field("ctrl_meas", 0xC3).unwrap();
    assert_eq!(chip.read_reg(0x74).unwrap(), 0xC3);
    chip.write_reg(0x74, 0x3C).unwrap();
    assert_eq!(chip.read_field("ctrl_meas").unwrap(), 0x3C);
    assert_eq!(chip.read_field("ctrl_meas").unwrap(), chip.read_reg(0x74).unwrap());
    // The write itself is the same byte that write_reg sends.
    let last = chip.i2c.log.len();
    chip.write_field("ctrl_meas", 0x81).unwrap();
    assert_eq!(chip.i2c.log[last + 1].1, vec![0x74, 0x81]);
}

#[test]
fn unknown_field_is_not_found_without_transaction() {
    let mut chip = bme_chip(&[]);
    assert!(matches!(chip.read_field("no_such_field"), Err(I2CError::NotFound)));
    assert!(matches!(chip.write_field("no_such_field", 1), Err(I2CError::NotFound)));
    assert!(matches!(chip.read_reg_str("Mode"), Err(I2CError::NotFound)));
    assert!(matches!(chip.write_reg_str("", 1), Err(I2CError::NotFound)));
    let mut buf = [7u8; 3];
    assert!(matches!(chip.read_regs_str("temp", &mut buf), Err(I2CError::NotFound)));
    assert_eq!(buf, [7, 7, 7]);
    assert!(chip.i2c.log.is_empty());
}

#[test]
fn chip_without_map_finds_no_field() {
    let mut chip: Chip<MockBus, NoFieldMap> = Chip::new_generic(MockBus::new(0x76), 0x76);
    assert!(matches!(chip.read_field("chip_id"), Err(I2CError::NotFound)));
    assert!(matches!(chip.write_field("mode", 1), Err(I2CError::NotFound)));
    assert!(chip.i2c.log.is_empty());
    chip.i2c.regs[0xD0] = 0x61;
    assert_eq!(chip.read_reg(0xD0).unwrap(), 0x61);
}

#[test]
fn register_access_by_number_and_name() {
    let mut chip = bme_chip(&[(0x22, 0x11), (0x23, 0x22), (0x24, 0x33), (0x25, 0x44)]);
    let mut buf = [0u8; 4];
    chip.read_regs(0x22, &mut buf).unwrap();
    assert_eq!(buf, [0x11, 0x22, 0x33, 0x44]);
    let mut three = [0u8; 3];
    chip.read_regs_str("temp_msb", &mut three).unwrap();
    assert_eq!(three, [0x11, 0x22, 0x33]);
    // osrs_t lives in ctrl_meas: the whole register is read and written.
    chip.write_reg_str("osrs_t", 0xAB).unwrap();
    assert_eq!(chip.i2c.regs[0x74], 0xAB);
    assert_eq!(chip.read_reg_str("osrs_t").unwrap(), 0xAB);
    assert_eq!(chip.read_field("osrs_t").unwrap(), 0xAB >> 5);
    assert_eq!(chip.i2c.log.len(), 5);
}

#[test]
fn transport_error_is_passed_on() {
    let mut chip = bme_chip(&[]);
    chip.i2c.fail_at = Some(0);
    assert!(matches!(chip.read_reg(0x10), Err(I2CError::I2CError(Nack))));
    chip.i2c.fail_at = Some(1);
    assert!(matches!(chip.write_reg(0x10, 1), Err(I2CError::I2CError(Nack))));
    // A failed read ends a field write before anything is written.
    chip.i2c.fail_at = Some(2);
    chip.i2c.regs[0x74] = 0x55;
    assert!(matches!(chip.write_field("mode", 1), Err(I2CError::I2CError(Nack))));
    assert_eq!(chip.i2c.log.len(), 3);
    assert_eq!(chip.i2c.regs[0x74], 0x55);
    // A failed write-back is reported too.
    chip.i2c.fail_at = Some(4);
    assert!(matches!(chip.write_field("mode", 1), Err(I2CError::I2CError(Nack))));
    assert_eq!(chip.i2c.log.len(), 5);
}
