use bme680_chip::bme680::{heater_resistance, pack_temp_adc, CalCodes, CAL_BYTES};
use bme680_chip::bme680_map::Bme680FieldMap;
use bme680_chip::chip_map::{extract_field, insert_field, mask_of, Field, FieldMapProvider, NoFieldMap};
use bme680_chip::names::{numbered_name, str_eq};

fn field(offset: u8, bits: u8) -> Field {
    Field { reg: 0x10, offset, bits, writable: true }
}

#[test]
fn masks_cover_the_field() {
    assert_eq!(mask_of(field(0, 8)), 0xFF);
    assert_eq!(mask_of(field(2, 3)), 0b0001_1100);
    assert_eq!(mask_of(field(7, 1)), 0b1000_0000);
    assert_eq!(mask_of(field(4, 4)), 0xF0);
}

#[test]
fn insert_keeps_bits_outside_every_field() {
    for bits in 1..=8u8 {
        for offset in 0..=(8 - bits) {
            let f = field(offset, bits);
            let mask = mask_of(f);
            for seed in [0x00u8, 0xFF, 0xA5, 0x5A, 0x81] {
                let ones = (((1u16 << bits) - 1) & 0xFF) as u8;
                let r = insert_field(seed, f, ones);
                assert_eq!(r & !mask, seed & !mask);
                assert_eq!(r & mask, mask);
            }
        }
    }
}

#[test]
fn insert_then_extract_round_trips() {
    for bits in 1..=8u8 {
        for offset in 0..=(8 - bits) {
            let f = field(offset, bits);
            for v in 0..(1u16 << bits) {
                for seed in [0x00u8, 0xFF, 0x6B] {
                    assert_eq!(extract_field(insert_field(seed, f, v as u8), f), v as u8);
                }
            }
        }
    }
}

#[test]
fn full_width_insert_and_extract_are_identity() {
    let f = field(0, 8);
    for v in 0..=255u8 {
        assert_eq!(insert_field(0x3C, f, v), v);
        assert_eq!(extract_field(v, f), v);
    }
}

#[test]
fn extract_reads_field_bits() {
    assert_eq!(extract_field(0b1011_0100, field(2, 3)), 0b101);
    assert_eq!(extract_field(0b1011_0100, field(5, 3)), 0b101);
    assert_eq!(extract_field(0b1011_0100, field(0, 2)), 0);
    assert_eq!(insert_field(0b1011_0100, field(0, 2), 0b01), 0b1011_0101);
}

#[test]
fn field_map_lookup_is_exact() {
    let f = Bme680FieldMap::get_field("osrs_t").unwrap();
    assert_eq!(f, Field { reg: 0x74, offset: 5, bits: 3, writable: true });
    let f = Bme680FieldMap::get_field("res_heat_range").unwrap();
    assert_eq!(f, Field { reg: 0x02, offset: 4, bits: 2, writable: false });
    assert_eq!(Bme680FieldMap::get_field("chip_id").unwrap().reg, 0xd0);
    assert_eq!(Bme680FieldMap::get_field("Id").unwrap().reg, 0xd0);
    assert!(Bme680FieldMap::get_field("id").is_none());
    assert!(Bme680FieldMap::get_field("osrs_t ").is_none());
    assert!(Bme680FieldMap::get_field("osrs").is_none());
    assert!(Bme680FieldMap::get_field("").is_none());
    assert!(NoFieldMap::get_field("osrs_t").is_none());
}

#[test]
fn every_map_entry_lies_in_its_register() {
    let names = [
        "status", "reset", "Id", "chip_id", "Config", "filter", "ctrl_meas", "osrs_t", "osrs_p", "mode",
        "Ctrl_hum", "osrs_h", "ctrl_gas_1", "ctrl_gas_0", "run_gas", "nb_conv", "heat_off", "gas_r_lsb",
        "gas_range_r", "heat_stab_r", "gas_valid_r", "gas_r_msb", "hum_lsb", "hum_msb", "temp_xlsb",
        "temp_lsb", "temp_msb", "press_xlsb", "press_lsb", "press_msb", "range_switching_error",
    ];
    for n in names {
        let f = Bme680FieldMap::get_field(n).unwrap();
        assert!(f.bits >= 1 && f.offset + f.bits <= 8, "{}", n);
    }
    for i in 0..10u8 {
        assert_eq!(Bme680FieldMap::get_field(&format!("gas_wait_{}", i)).unwrap().reg, 0x64 + i);
        assert_eq!(Bme680FieldMap::get_field(&format!("res_heat_{}", i)).unwrap().reg, 0x5a + i);
    }
}

#[test]
fn names_compare_exactly() {
    assert!(str_eq("mode", "mode"));
    assert!(!str_eq("mode", "Mode"));
    assert!(!str_eq("mode", "mod"));
    assert!(str_eq("", ""));
    assert!(!str_eq("é", "e"));
}

#[test]
fn numbered_names() {
    assert_eq!(numbered_name("res_heat_", 0), "res_heat_0");
    assert_eq!(numbered_name("gas_wait_", 9), "gas_wait_9");
    assert_eq!(numbered_name("x", 10), "x10");
    assert_eq!(numbered_name("x", 105), "x105");
    assert_eq!(numbered_name("", 255), "255");
}

#[test]
fn temperature_code_is_packed_from_three_registers() {
    assert_eq!(pack_temp_adc(0x7F, 0xFF, 0xF0), 0x7FFFF);
    assert_eq!(pack_temp_adc(0x12, 0x34, 0x5F), 0x12345);
    assert_eq!(pack_temp_adc(0xFF, 0xFF, 0xFF), 0xFFFFF);
    assert_eq!(pack_temp_adc(0, 0, 0x0F), 0);
}

fn gas_cal(g1: i8, g2: i16, g3: i8) -> CalCodes {
    let mut c = CalCodes::default();
    c.par_g1 = g1;
    c.par_g2 = g2;
    c.par_g3 = g3;
    c
}

#[test]
fn heater_resistance_values() {
    assert_eq!(heater_resistance(&gas_cal(-30, -5000, 18), 2512, 300, 1, 42), 114);
    assert_eq!(heater_resistance(&gas_cal(127, 32767, 127), -2550, 400, 3, 255), 72);
    assert_eq!(heater_resistance(&gas_cal(10, 1000, 100), 8000, 32767, 2, 200), 79);
    assert_eq!(heater_resistance(&gas_cal(0, 0, 0), 0, 0, 0, 0), 82);
    // An out-of-range code is truncated to its low byte: -8395 mod 256.
    assert_eq!(heater_resistance(&gas_cal(-128, -32768, -128), -99, -32768, 0, 0), 53);
}

#[test]
fn calibration_byte_count() {
    assert_eq!(CAL_BYTES, 34);
}

#[test]
fn assemble_from_raw_bytes() {
    let mut raw = [0u8; 34];
    raw[0] = 0x4E;
    raw[1] = 0x66;
    raw[2] = 0x34;
    raw[3] = 0xF2;
    raw[4] = 0xFF;
    raw[21] = 0x05;
    raw[22] = 0x0A;
    raw[30] = 0xFE;
    let mut c = CalCodes::default();
    c.gas_adc = 77;
    c.assemble(&raw);
    assert_eq!(c.par_t1, 26190);
    assert_eq!(c.par_t2, -3532);
    assert_eq!(c.par_t3, -1);
    assert_eq!(c.par_h1, 0x0A5);
    assert_eq!(c.par_g1, -2);
    assert_eq!(c.gas_adc, 77);
}
