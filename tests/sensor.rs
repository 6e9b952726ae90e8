use bme680_chip::bme680::{CalCodes, BME680};
use bme680_chip::bme680_map::Bme680FieldMap;
use bme680_chip::chip::{Bus, Chip, I2CError};

#[derive(Debug, Clone, PartialEq)]
struct Nack;

/// A register file at one bus address that records every transaction.
struct MockBus {
    addr: u8,
    regs: [u8; 256],
    log: Vec<(u8, Vec<u8>, usize)>,
    fail_at: Option<usize>,
}

impl MockBus {
    fn new(addr: u8) -> Self {
        MockBus { addr, regs: [0; 256], log: Vec::new(), fail_at: None }
    }
}

impl Bus for MockBus {
    type Error = Nack;

    fn write_read(&mut self, address: u8, bytes: &[u8], buffer: &mut [u8]) -> Result<(), Nack> {
        let n = self.log.len();
        self.log.push((address, bytes.to_vec(), buffer.len()));
        if address != self.addr || self.fail_at == Some(n) {
            return Err(Nack);
        }
        let reg = bytes[0] as usize;
        if bytes.len() > 1 {
            for (i, b) in bytes[1..].iter().enumerate() {
                self.regs[(reg + i) % 256] = *b;
            }
        } else {
            for (i, slot) in buffer.iter_mut().enumerate() {
                *slot = self.regs[(reg + i) % 256];
            }
        }
        Ok(())
    }
}

/// The calibration registers, in the order the sensor reads them.
const CAL_REGS: [u8; 34] = [
    0xe9, 0xea, 0x8a, 0x8b, 0x8c, 0x8e, 0x8f, 0x90, 0x91, 0x92, 0x94, 0x95, 0x96, 0x97, 0x99, 0x98, 0x9c,
    0x9d, 0x9e, 0x9f, 0xa0, 0xe2, 0xe3, 0xe1, 0xe2, 0xe4, 0xe5, 0xe6, 0xe7, 0xe8, 0xed, 0xeb, 0xec, 0xee,
];

fn synthetic_bus(addr: u8) -> MockBus {
    let mut bus = MockBus::new(addr);
    // par_t1 = 26190 = 0x664E
    bus.regs[0xe9] = 0x4E;
    bus.regs[0xea] = 0x66;
    // par_t2 = 0xF234 = -3532
    bus.regs[0x8a] = 0x34;
    bus.regs[0x8b] = 0xF2;
    // par_t3 = -1
    bus.regs[0x8c] = 0xFF;
    // par_p1 = 0x8F12
    bus.regs[0x8e] = 0x12;
    bus.regs[0x8f] = 0x8F;
    // par_p2 = 0x8001 = -32767
    bus.regs[0x90] = 0x01;
    bus.regs[0x91] = 0x80;
    bus.regs[0x92] = 0x80;
    bus.regs[0x94] = 0x10;
    bus.regs[0x95] = 0x20;
    bus.regs[0x96] = 0xFF;
    bus.regs[0x97] = 0xFF;
    bus.regs[0x99] = 0x7F;
    bus.regs[0x98] = 0x81;
    bus.regs[0x9c] = 0x00;
    bus.regs[0x9d] = 0x01;
    bus.regs[0x9e] = 0xAA;
    bus.regs[0x9f] = 0xBB;
    bus.regs[0xa0] = 0xC8;
    // par_h1: low nibble of 0xE2 with 0xE3 above it; par_h2: 0xE1 above the high nibble of 0xE2
    bus.regs[0xe2] = 0x35;
    bus.regs[0xe3] = 0x0A;
    bus.regs[0xe1] = 0x3F;
    bus.regs[0xe4] = 0x00;
    bus.regs[0xe5] = 0x2D;
    bus.regs[0xe6] = 0x14;
    bus.regs[0xe7] = 0x78;
    bus.regs[0xe8] = 0x9C;
    // par_g1 = -2, par_g2 = 0xEC18 = -5096, par_g3 = 18
    bus.regs[0xed] = 0xFE;
    bus.regs[0xeb] = 0x18;
    bus.regs[0xec] = 0xEC;
    bus.regs[0xee] = 0x12;
    bus
}

fn sensor() -> BME680<MockBus> {
    let chip: Chip<MockBus, Bme680FieldMap> = Chip::new(synthetic_bus(0x76), 0x76);
    BME680::new(chip).ok().expect("calibration")
}

#[test]
fn calibration_constants_are_assembled() {
    let bme = sensor();
    let c = bme.cal_codes;
    assert_eq!(c.par_t1, 26190);
    assert_eq!(c.par_t2, -3532);
    assert_eq!(c.par_t3, -1);
    assert_eq!(c.par_p1, 0x8F12);
    assert_eq!(c.par_p2, -32767);
    assert_eq!(c.par_p3, -128);
    assert_eq!(c.par_p4, 0x2010);
    assert_eq!(c.par_p5, -1);
    assert_eq!(c.par_p6, 127);
    assert_eq!(c.par_p7, -127);
    assert_eq!(c.par_p8, 0x0100);
    assert_eq!(c.par_p9, 0xBBAAu16 as i16);
    assert_eq!(c.par_p10, 0xC8);
    assert_eq!(c.par_h1, 0x0A5);
    assert_eq!(c.par_h2, 0x3F3);
    assert_eq!(c.par_h3, 0);
    assert_eq!(c.par_h4, 45);
    assert_eq!(c.par_h5, 20);
    assert_eq!(c.par_h6, 0x78);
    assert_eq!(c.par_h7, -100);
    assert_eq!(c.par_g1, -2);
    assert_eq!(c.par_g2, -5096);
    assert_eq!(c.par_g3, 18);
    assert_eq!(bme.temp_comp, 0);
    assert_eq!(bme.t_fine, 0);
}

#[test]
fn humidity_split_constant_uses_whole_companion_register() {
    let mut bus = synthetic_bus(0x76);
    bus.regs[0xe2] = 0x05;
    bus.regs[0xe3] = 0xA0;
    let bme = BME680::new(Chip::new(bus, 0x76)).ok().expect("calibration");
    assert_eq!(bme.cal_codes.par_h1, 0xA05);
    assert_eq!(bme.cal_codes.par_h2, 0x3F0);
}

#[test]
fn calibration_reads_registers_in_order() {
    let bme = sensor();
    let log = &bme.chip.i2c.log;
    assert_eq!(log.len(), 34);
    for (i, reg) in CAL_REGS.iter().enumerate() {
        assert_eq!(log[i], (0x76, vec![*reg], 1));
    }
}

#[test]
fn failed_calibration_read_stops_and_keeps_constants() {
    let mut bme = sensor();
    let before = bme.cal_codes;
    bme.chip.i2c.regs[0xe9] = 0x00;
    bme.chip.i2c.fail_at = Some(34 + 5);
    assert!(matches!(bme.read_cal_codes(), Err(I2CError::I2CError(Nack))));
    assert_eq!(bme.chip.i2c.log.len(), 34 + 6);
    assert_eq!(bme.cal_codes, before);
    // A full re-read takes the new register contents.
    bme.chip.i2c.fail_at = None;
    bme.read_cal_codes().unwrap();
    assert_eq!(bme.cal_codes.par_t1, 0x6600);
}

#[test]
fn new_fails_on_transport_error() {
    let mut bus = synthetic_bus(0x76);
    bus.fail_at = Some(0);
    match BME680::new(Chip::new(bus, 0x76)) {
        Err((I2CError::I2CError(Nack), back)) => {
            // Nothing follows the failed read, and the chip comes back.
            assert_eq!(back.i2c.log.len(), 1);
            assert_eq!(back.i2c_addr, 0x76);
        },
        _ => panic!("expected the transport error"),
    }
}

#[test]
fn temperature_reference_scenario() {
    let mut bme = sensor();
    bme.cal_codes.par_t1 = 26190;
    bme.cal_codes.par_t2 = 26266;
    bme.cal_codes.par_t3 = 3;
    let adc: u32 = 0x7FFFF;
    // The datasheet formula with 64-bit intermediates.
    let var1 = ((adc as i64) >> 3) - ((26190i64) << 1);
    let var2 = (var1 * 26266) >> 11;
    let var3 = ((((var1 >> 1) * (var1 >> 1)) >> 12) * (3i64 << 4)) >> 14;
    let t_fine = var2 + var3;
    let expected = (t_fine * 5 + 128) >> 8;
    assert_eq!(t_fine, 168745);
    assert_eq!(expected, 3296);
    assert_eq!(bme.calibrate_temperature(adc), 3296);
    assert_eq!(bme.t_fine, 168745);
    assert_eq!(bme.temp_comp, 3296);
}

#[test]
fn temperature_with_negative_intermediates() {
    let mut bme = sensor();
    bme.cal_codes.par_t1 = 100;
    bme.cal_codes.par_t2 = -200;
    bme.cal_codes.par_t3 = -5;
    assert_eq!(bme.calibrate_temperature(0x7FFFF), -149);
    assert_eq!(bme.t_fine, -7654);
}

#[test]
fn read_temperature_triggers_forced_mode_and_burst_read() {
    let mut bme = sensor();
    bme.cal_codes.par_t1 = 26190;
    bme.cal_codes.par_t2 = 26266;
    bme.cal_codes.par_t3 = 3;
    bme.chip.i2c.regs[0x74] = 0b1011_0100;
    bme.chip.i2c.regs[0x22] = 0x7F;
    bme.chip.i2c.regs[0x23] = 0xFF;
    bme.chip.i2c.regs[0x24] = 0xF0;
    let t = bme.read_temperature().unwrap();
    assert_eq!(t, 3296);
    assert_eq!(bme.temp_comp, 3296);
    assert_eq!(bme.chip.i2c.regs[0x74], 0b1011_0101);
    let log = &bme.chip.i2c.log[34..];
    assert_eq!(log.len(), 3);
    assert_eq!(log[0], (0x76, vec![0x74], 1));
    assert_eq!(log[1].1, vec![0x74, 0b1011_0101]);
    assert_eq!(log[2], (0x76, vec![0x22], 3));
}

#[test]
fn failed_temperature_read_keeps_state() {
    let mut bme = sensor();
    bme.chip.i2c.fail_at = Some(36);
    assert!(matches!(bme.read_temperature(), Err(I2CError::I2CError(Nack))));
    assert_eq!(bme.chip.i2c.log.len(), 37);
    assert_eq!(bme.temp_comp, 0);
    assert_eq!(bme.t_fine, 0);
}

#[test]
fn heater_target_runs_one_temperature_read_first() {
    let mut bme = sensor();
    bme.chip.i2c.regs[0x22] = 0x7F;
    bme.chip.i2c.regs[0x23] = 0xFF;
    bme.chip.i2c.regs[0x24] = 0xF0;
    assert_eq!(bme.temp_comp, 0);
    bme.set_heater_temp(300, 1).unwrap();
    // temperature (3) + heater range and value (2) + read-modify-write (2)
    assert_eq!(bme.chip.i2c.log.len() - 34, 7);
    assert_ne!(bme.temp_comp, 0);
    let count = bme.chip.i2c.log.len();
    bme.set_heater_temp(300, 1).unwrap();
    assert_eq!(bme.chip.i2c.log.len() - count, 4);
}

#[test]
fn heater_target_is_written_to_profile_register() {
    let mut bme = sensor();
    bme.cal_codes.par_g1 = -30;
    bme.cal_codes.par_g2 = -5000;
    bme.cal_codes.par_g3 = 18;
    bme.temp_comp = 2512;
    bme.chip.i2c.regs[0x02] = 0b0001_0000; // res_heat_range = 1
    bme.chip.i2c.regs[0x00] = 42;
    bme.set_heater_temp(300, 3).unwrap();
    assert_eq!(bme.chip.i2c.regs[0x5a + 3], 114);
    let log = &bme.chip.i2c.log[34..];
    assert_eq!(log.len(), 4);
    assert_eq!(log[0], (0x76, vec![0x02], 1));
    assert_eq!(log[1], (0x76, vec![0x00], 1));
    assert_eq!(log[3].1, vec![0x5d, 114]);
}

#[test]
fn heater_profile_out_of_range_is_not_found() {
    let mut bme = sensor();
    bme.temp_comp = 2512;
    assert!(matches!(bme.set_heater_temp(300, 10), Err(I2CError::NotFound)));
    // The heater range and value were read before the name was looked up.
    assert_eq!(bme.chip.i2c.log.len() - 34, 2);
    assert!(matches!(bme.set_gas_wait(30, 12), Err(I2CError::NotFound)));
    assert_eq!(bme.chip.i2c.log.len() - 34, 2);
}

#[test]
fn gas_wait_is_written_to_profile_register() {
    let mut bme = sensor();
    bme.set_gas_wait(0x1e, 9).unwrap();
    assert_eq!(bme.chip.i2c.regs[0x6d], 0x1e);
    bme.set_gas_wait(0x40, 0).unwrap();
    assert_eq!(bme.chip.i2c.regs[0x64], 0x40);
}

#[test]
fn config_writes_settings_then_profile() {
    let mut bme = sensor();
    bme.temp_comp = 2512;
    bme.config(1).unwrap();
    let regs = &bme.chip.i2c.regs;
    assert_eq!(regs[0x72] & 0b111, 0b101);
    assert_eq!(regs[0x74] >> 2, 0b101_101);
    assert_eq!((regs[0x75] >> 2) & 0b111, 0b010);
    assert_eq!(regs[0x2b] & 0x0F, 4);
    assert_eq!(regs[0x71], 0b0001_0001);
    assert_eq!(regs[0x65], 0b0001_1110);
    // seven fields and the gas wait (two each), then the heater step (four)
    assert_eq!(bme.chip.i2c.log.len() - 34, 16 + 4);
}

#[test]
fn config_stops_at_first_failure() {
    let mut bme = sensor();
    bme.chip.i2c.fail_at = Some(34 + 5);
    assert!(matches!(bme.config(0), Err(I2CError::I2CError(Nack))));
    assert_eq!(bme.chip.i2c.log.len() - 34, 6);
}

#[test]
fn probe_finds_second_address() {
    let chip: Chip<MockBus, Bme680FieldMap> = Chip::new(
        {
            let mut bus = synthetic_bus(0x77);
            bus.regs[0xd0] = 0x61;
            bus
        },
        0x10,
    );
    let bme = BME680::probe(chip).ok().expect("probe");
    assert_eq!(bme.chip.i2c_addr, 0x77);
    let log = &bme.chip.i2c.log;
    assert_eq!(log[0], (0x76, vec![0xd0], 1));
    assert_eq!(log[1], (0x77, vec![0xd0], 1));
    assert_eq!(log.len(), 2 + 34);
    assert_eq!(bme.cal_codes.par_t1, 26190);
}

#[test]
fn probe_accepts_first_address() {
    let mut bus = synthetic_bus(0x76);
    bus.regs[0xd0] = 0x61;
    let mut chip: Chip<MockBus, Bme680FieldMap> = Chip::new(bus, 0x00);
    assert_eq!(BME680::probe_address(&mut chip).unwrap(), 0x76);
    assert_eq!(chip.i2c_addr, 0x76);
    assert_eq!(chip.i2c.log.len(), 1);
}

#[test]
fn probe_exhaustion_is_device_not_found() {
    // A device that answers at 0x76 with the wrong identifier.
    let mut bus = synthetic_bus(0x76);
    bus.regs[0xd0] = 0x60;
    let mut chip: Chip<MockBus, Bme680FieldMap> = Chip::new(bus, 0x42);
    assert!(matches!(BME680::probe_address(&mut chip), Err(I2CError::DeviceNotFound)));
    assert_eq!(chip.i2c.log.len(), 2);
    assert_eq!(chip.i2c.log[0].0, 0x76);
    assert_eq!(chip.i2c.log[1].0, 0x77);
    assert_eq!(chip.i2c_addr, 0x42);
    // No device at either address.
    let chip: Chip<MockBus, Bme680FieldMap> = Chip::new(synthetic_bus(0x50), 0x50);
    match BME680::probe(chip) {
        Err((I2CError::DeviceNotFound, back)) => {
            // Only the two identifier reads, nothing after the probe set.
            assert_eq!(back.i2c.log.len(), 2);
            assert_eq!(back.i2c.log[0], (0x76, vec![0xd0], 1));
            assert_eq!(back.i2c.log[1], (0x77, vec![0xd0], 1));
            assert_eq!(back.i2c_addr, 0x50);
        },
        _ => panic!("expected DeviceNotFound"),
    }
}

#[test]
fn probe_passes_on_calibration_error() {
    let mut bus = synthetic_bus(0x76);
    bus.regs[0xd0] = 0x61;
    bus.fail_at = Some(1 + 3);
    match BME680::probe(Chip::new(bus, 0x00)) {
        Err((I2CError::I2CError(Nack), back)) => {
            assert_eq!(back.i2c_addr, 0x76);
            assert_eq!(back.i2c.log.len(), 1 + 4);
        },
        _ => panic!("expected the transport error"),
    }
}

#[test]
fn default_cal_codes_are_zero() {
    let c = CalCodes::default();
    assert_eq!(c.par_t1, 0);
    assert_eq!(c.par_g2, 0);
    assert_eq!(c.range_switching_error, 0);
}
