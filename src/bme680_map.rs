//! The register map of the BME680 environmental sensor.
use vstd::prelude::*;

use crate::chip_map::{Field, FieldMapProvider};
use crate::names::{decimal, digit_char, str_eq};

verus! {

/// The field map of the BME680: configuration, measurement, heater-profile
/// and calibration registers.
#[derive(Clone, Copy)]
pub struct Bme680FieldMap;

/// The descriptor of the BME680 field called `name`, if there is one.
pub open spec fn bme680_field(name: Seq<char>) -> Option<Field> {
    if name == "status"@ {
        Some(Field { reg: 0x73, offset: 0, bits: 8, writable: true })
    } else if name == "reset"@ {
        Some(Field { reg: 0xe0, offset: 0, bits: 8, writable: true })
    } else if name == "Id"@ {
        Some(Field { reg: 0xd0, offset: 0, bits: 8, writable: false })
    } else if name == "chip_id"@ {
        Some(Field { reg: 0xd0, offset: 0, bits: 8, writable: false })
    } else if name == "Config"@ {
        Some(Field { reg: 0x75, offset: 0, bits: 8, writable: true })
    } else if name == "filter"@ {
        Some(Field { reg: 0x75, offset: 2, bits: 3, writable: true })
    } else if name == "ctrl_meas"@ {
        Some(Field { reg: 0x74, offset: 0, bits: 8, writable: true })
    } else if name == "osrs_t"@ {
        Some(Field { reg: 0x74, offset: 5, bits: 3, writable: true })
    } else if name == "osrs_p"@ {
        Some(Field { reg: 0x74, offset: 2, bits: 3, writable: true })
    } else if name == "mode"@ {
        Some(Field { reg: 0x74, offset: 0, bits: 2, writable: true })
    } else if name == "Ctrl_hum"@ {
        Some(Field { reg: 0x72, offset: 0, bits: 8, writable: true })
    } else if name == "osrs_h"@ {
        Some(Field { reg: 0x72, offset: 0, bits: 3, writable: true })
    } else if name == "ctrl_gas_1"@ {
        Some(Field { reg: 0x71, offset: 0, bits: 8, writable: true })
    } else if name == "ctrl_gas_0"@ {
        Some(Field { reg: 0x70, offset: 4, bits: 2, writable: true })
    } else if name == "run_gas"@ {
        Some(Field { reg: 0x71, offset: 4, bits: 1, writable: true })
    } else if name == "nb_conv"@ {
        Some(Field { reg: 0x71, offset: 0, bits: 4, writable: true })
    } else if name == "heat_off"@ {
        Some(Field { reg: 0x70, offset: 3, bits: 1, writable: true })
    } else if name == "gas_wait_9"@ {
        Some(Field { reg: 0x6d, offset: 0, bits: 8, writable: true })
    } else if name == "gas_wait_8"@ {
        Some(Field { reg: 0x6c, offset: 0, bits: 8, writable: true })
    } else if name == "gas_wait_7"@ {
        Some(Field { reg: 0x6b, offset: 0, bits: 8, writable: true })
    } else if name == "gas_wait_6"@ {
        Some(Field { reg: 0x6a, offset: 0, bits: 8, writable: true })
    } else if name == "gas_wait_5"@ {
        Some(Field { reg: 0x69, offset: 0, bits: 8, writable: true })
    } else if name == "gas_wait_4"@ {
        Some(Field { reg: 0x68, offset: 0, bits: 8, writable: true })
    } else if name == "gas_wait_3"@ {
        Some(Field { reg: 0x67, offset: 0, bits: 8, writable: true })
    } else if name == "gas_wait_2"@ {
        Some(Field { reg: 0x66, offset: 0, bits: 8, writable: true })
    } else if name == "gas_wait_1"@ {
        Some(Field { reg: 0x65, offset: 0, bits: 8, writable: true })
    } else if name == "gas_wait_0"@ {
        Some(Field { reg: 0x64, offset: 0, bits: 8, writable: true })
    } else if name == "res_heat_9"@ {
        Some(Field { reg: 0x63, offset: 0, bits: 8, writable: true })
    } else if name == "res_heat_8"@ {
        Some(Field { reg: 0x62, offset: 0, bits: 8, writable: true })
    } else if name == "res_heat_7"@ {
        Some(Field { reg: 0x61, offset: 0, bits: 8, writable: true })
    } else if name == "res_heat_6"@ {
        Some(Field { reg: 0x60, offset: 0, bits: 8, writable: true })
    } else if name == "res_heat_5"@ {
        Some(Field { reg: 0x5f, offset: 0, bits: 8, writable: true })
    } else if name == "res_heat_4"@ {
        Some(Field { reg: 0x5e, offset: 0, bits: 8, writable: true })
    } else if name == "res_heat_3"@ {
        Some(Field { reg: 0x5d, offset: 0, bits: 8, writable: true })
    } else if name == "res_heat_2"@ {
        Some(Field { reg: 0x5c, offset: 0, bits: 8, writable: true })
    } else if name == "res_heat_1"@ {
        Some(Field { reg: 0x5b, offset: 0, bits: 8, writable: true })
    } else if name == "res_heat_0"@ {
        Some(Field { reg: 0x5a, offset: 0, bits: 8, writable: true })
    } else if name == "gas_r_lsb"@ {
        Some(Field { reg: 0x2b, offset: 0, bits: 8, writable: false })
    } else if name == "gas_range_r"@ {
        Some(Field { reg: 0x2b, offset: 0, bits: 4, writable: false })
    } else if name == "heat_stab_r"@ {
        Some(Field { reg: 0x2b, offset: 4, bits: 1, writable: false })
    } else if name == "gas_valid_r"@ {
        Some(Field { reg: 0x2b, offset: 5, bits: 1, writable: false })
    } else if name == "gas_r_msb"@ {
        Some(Field { reg: 0x2a, offset: 0, bits: 8, writable: false })
    } else if name == "hum_lsb"@ {
        Some(Field { reg: 0x26, offset: 0, bits: 8, writable: false })
    } else if name == "hum_msb"@ {
        Some(Field { reg: 0x25, offset: 0, bits: 8, writable: false })
    } else if name == "temp_xlsb"@ {
        Some(Field { reg: 0x24, offset: 4, bits: 4, writable: false })
    } else if name == "temp_lsb"@ {
        Some(Field { reg: 0x23, offset: 0, bits: 8, writable: false })
    } else if name == "temp_msb"@ {
        Some(Field { reg: 0x22, offset: 0, bits: 8, writable: false })
    } else if name == "press_xlsb"@ {
        Some(Field { reg: 0x21, offset: 4, bits: 4, writable: false })
    } else if name == "press_lsb"@ {
        Some(Field { reg: 0x20, offset: 0, bits: 8, writable: false })
    } else if name == "press_msb"@ {
        Some(Field { reg: 0x1f, offset: 0, bits: 8, writable: false })
    } else if name == "par_t1"@ {
        Some(Field { reg: 0xe9, offset: 0, bits: 8, writable: false })
    } else if name == "par_t2"@ {
        Some(Field { reg: 0x8a, offset: 0, bits: 8, writable: false })
    } else if name == "par_t3"@ {
        Some(Field { reg: 0x8c, offset: 0, bits: 8, writable: false })
    } else if name == "par_p1"@ {
        Some(Field { reg: 0x8e, offset: 0, bits: 8, writable: false })
    } else if name == "par_p2"@ {
        Some(Field { reg: 0x90, offset: 0, bits: 8, writable: false })
    } else if name == "par_p3"@ {
        Some(Field { reg: 0x92, offset: 0, bits: 8, writable: false })
    } else if name == "par_p4"@ {
        Some(Field { reg: 0x94, offset: 0, bits: 8, writable: false })
    } else if name == "par_p5"@ {
        Some(Field { reg: 0x96, offset: 0, bits: 8, writable: false })
    } else if name == "par_p6"@ {
        Some(Field { reg: 0x99, offset: 0, bits: 8, writable: false })
    } else if name == "par_p7"@ {
        Some(Field { reg: 0x98, offset: 0, bits: 8, writable: false })
    } else if name == "par_p8"@ {
        Some(Field { reg: 0x9c, offset: 0, bits: 8, writable: false })
    } else if name == "par_p9"@ {
        Some(Field { reg: 0x9e, offset: 0, bits: 8, writable: false })
    } else if name == "par_p10"@ {
        Some(Field { reg: 0xa0, offset: 0, bits: 8, writable: false })
    } else if name == "par_h1"@ {
        Some(Field { reg: 0xe2, offset: 0, bits: 8, writable: false })
    } else if name == "par_h2"@ {
        Some(Field { reg: 0xe1, offset: 0, bits: 8, writable: false })
    } else if name == "par_h3"@ {
        Some(Field { reg: 0xe4, offset: 0, bits: 8, writable: false })
    } else if name == "par_h4"@ {
        Some(Field { reg: 0xe5, offset: 0, bits: 8, writable: false })
    } else if name == "par_h5"@ {
        Some(Field { reg: 0xe6, offset: 0, bits: 8, writable: false })
    } else if name == "par_h6"@ {
        Some(Field { reg: 0xe7, offset: 0, bits: 8, writable: false })
    } else if name == "par_h7"@ {
        Some(Field { reg: 0xe8, offset: 0, bits: 8, writable: false })
    } else if name == "par_g1"@ {
        Some(Field { reg: 0xed, offset: 0, bits: 8, writable: false })
    } else if name == "par_g2"@ {
        Some(Field { reg: 0xeb, offset: 0, bits: 8, writable: false })
    } else if name == "par_g3"@ {
        Some(Field { reg: 0xee, offset: 0, bits: 8, writable: false })
    } else if name == "res_heat_range"@ {
        Some(Field { reg: 0x02, offset: 4, bits: 2, writable: false })
    } else if name == "res_heat_val"@ {
        Some(Field { reg: 0x00, offset: 0, bits: 8, writable: false })
    } else if name == "range_switching_error"@ {
        Some(Field { reg: 0x04, offset: 0, bits: 8, writable: false })
    } else {
        None
    }
}

impl FieldMapProvider for Bme680FieldMap {
    open spec fn field_named(name: Seq<char>) -> Option<Field> {
        bme680_field(name)
    }

    fn get_field(name: &str) -> (r: Option<Field>) {
        if str_eq(name, "status") {
            return Some(Field { reg: 0x73, offset: 0, bits: 8, writable: true });
        }
        if str_eq(name, "reset") {
            return Some(Field { reg: 0xe0, offset: 0, bits: 8, writable: true });
        }
        if str_eq(name, "Id") {
            return Some(Field { reg: 0xd0, offset: 0, bits: 8, writable: false });
        }
        if str_eq(name, "chip_id") {
            return Some(Field { reg: 0xd0, offset: 0, bits: 8, writable: false });
        }
        if str_eq(name, "Config") {
            return Some(Field { reg: 0x75, offset: 0, bits: 8, writable: true });
        }
        if str_eq(name, "filter") {
            return Some(Field { reg: 0x75, offset: 2, bits: 3, writable: true });
        }
        if str_eq(name, "ctrl_meas") {
            return Some(Field { reg: 0x74, offset: 0, bits: 8, writable: true });
        }
        if str_eq(name, "osrs_t") {
            return Some(Field { reg: 0x74, offset: 5, bits: 3, writable: true });
        }
        if str_eq(name, "osrs_p") {
            return Some(Field { reg: 0x74, offset: 2, bits: 3, writable: true });
        }
        if str_eq(name, "mode") {
            return Some(Field { reg: 0x74, offset: 0, bits: 2, writable: true });
        }
        if str_eq(name, "Ctrl_hum") {
            return Some(Field { reg: 0x72, offset: 0, bits: 8, writable: true });
        }
        if str_eq(name, "osrs_h") {
            return Some(Field { reg: 0x72, offset: 0, bits: 3, writable: true });
        }
        if str_eq(name, "ctrl_gas_1") {
            return Some(Field { reg: 0x71, offset: 0, bits: 8, writable: true });
        }
        if str_eq(name, "ctrl_gas_0") {
            return Some(Field { reg: 0x70, offset: 4, bits: 2, writable: true });
        }
        if str_eq(name, "run_gas") {
            return Some(Field { reg: 0x71, offset: 4, bits: 1, writable: true });
        }
        if str_eq(name, "nb_conv") {
            return Some(Field { reg: 0x71, offset: 0, bits: 4, writable: true });
        }
        if str_eq(name, "heat_off") {
            return Some(Field { reg: 0x70, offset: 3, bits: 1, writable: true });
        }
        if str_eq(name, "gas_wait_9") {
            return Some(Field { reg: 0x6d, offset: 0, bits: 8, writable: true });
        }
        if str_eq(name, "gas_wait_8") {
            return Some(Field { reg: 0x6c, offset: 0, bits: 8, writable: true });
        }
        if str_eq(name, "gas_wait_7") {
            return Some(Field { reg: 0x6b, offset: 0, bits: 8, writable: true });
        }
        if str_eq(name, "gas_wait_6") {
            return Some(Field { reg: 0x6a, offset: 0, bits: 8, writable: true });
        }
        if str_eq(name, "gas_wait_5") {
            return Some(Field { reg: 0x69, offset: 0, bits: 8, writable: true });
        }
        if str_eq(name, "gas_wait_4") {
            return Some(Field { reg: 0x68, offset: 0, bits: 8, writable: true });
        }
        if str_eq(name, "gas_wait_3") {
            return Some(Field { reg: 0x67, offset: 0, bits: 8, writable: true });
        }
        if str_eq(name, "gas_wait_2") {
            return Some(Field { reg: 0x66, offset: 0, bits: 8, writable: true });
        }
        if str_eq(name, "gas_wait_1") {
            return Some(Field { reg: 0x65, offset: 0, bits: 8, writable: true });
        }
        if str_eq(name, "gas_wait_0") {
            return Some(Field { reg: 0x64, offset: 0, bits: 8, writable: true });
        }
        if str_eq(name, "res_heat_9") {
            return Some(Field { reg: 0x63, offset: 0, bits: 8, writable: true });
        }
        if str_eq(name, "res_heat_8") {
            return Some(Field { reg: 0x62, offset: 0, bits: 8, writable: true });
        }
        if str_eq(name, "res_heat_7") {
            return Some(Field { reg: 0x61, offset: 0, bits: 8, writable: true });
        }
        if str_eq(name, "res_heat_6") {
            return Some(Field { reg: 0x60, offset: 0, bits: 8, writable: true });
        }
        if str_eq(name, "res_heat_5") {
            return Some(Field { reg: 0x5f, offset: 0, bits: 8, writable: true });
        }
        if str_eq(name, "res_heat_4") {
            return Some(Field { reg: 0x5e, offset: 0, bits: 8, writable: true });
        }
        if str_eq(name, "res_heat_3") {
            return Some(Field { reg: 0x5d, offset: 0, bits: 8, writable: true });
        }
        if str_eq(name, "res_heat_2") {
            return Some(Field { reg: 0x5c, offset: 0, bits: 8, writable: true });
        }
        if str_eq(name, "res_heat_1") {
            return Some(Field { reg: 0x5b, offset: 0, bits: 8, writable: true });
        }
        if str_eq(name, "res_heat_0") {
            return Some(Field { reg: 0x5a, offset: 0, bits: 8, writable: true });
        }
        if str_eq(name, "gas_r_lsb") {
            return Some(Field { reg: 0x2b, offset: 0, bits: 8, writable: false });
        }
        if str_eq(name, "gas_range_r") {
            return Some(Field { reg: 0x2b, offset: 0, bits: 4, writable: false });
        }
        if str_eq(name, "heat_stab_r") {
            return Some(Field { reg: 0x2b, offset: 4, bits: 1, writable: false });
        }
        if str_eq(name, "gas_valid_r") {
            return Some(Field { reg: 0x2b, offset: 5, bits: 1, writable: false });
        }
        if str_eq(name, "gas_r_msb") {
            return Some(Field { reg: 0x2a, offset: 0, bits: 8, writable: false });
        }
        if str_eq(name, "hum_lsb") {
            return Some(Field { reg: 0x26, offset: 0, bits: 8, writable: false });
        }
        if str_eq(name, "hum_msb") {
            return Some(Field { reg: 0x25, offset: 0, bits: 8, writable: false });
        }
        if str_eq(name, "temp_xlsb") {
            return Some(Field { reg: 0x24, offset: 4, bits: 4, writable: false });
        }
        if str_eq(name, "temp_lsb") {
            return Some(Field { reg: 0x23, offset: 0, bits: 8, writable: false });
        }
        if str_eq(name, "temp_msb") {
            return Some(Field { reg: 0x22, offset: 0, bits: 8, writable: false });
        }
        if str_eq(name, "press_xlsb") {
            return Some(Field { reg: 0x21, offset: 4, bits: 4, writable: false });
        }
        if str_eq(name, "press_lsb") {
            return Some(Field { reg: 0x20, offset: 0, bits: 8, writable: false });
        }
        if str_eq(name, "press_msb") {
            return Some(Field { reg: 0x1f, offset: 0, bits: 8, writable: false });
        }
        if str_eq(name, "par_t1") {
            return Some(Field { reg: 0xe9, offset: 0, bits: 8, writable: false });
        }
        if str_eq(name, "par_t2") {
            return Some(Field { reg: 0x8a, offset: 0, bits: 8, writable: false });
        }
        if str_eq(name, "par_t3") {
            return Some(Field { reg: 0x8c, offset: 0, bits: 8, writable: false });
        }
        if str_eq(name, "par_p1") {
            return Some(Field { reg: 0x8e, offset: 0, bits: 8, writable: false });
        }
        if str_eq(name, "par_p2") {
            return Some(Field { reg: 0x90, offset: 0, bits: 8, writable: false });
        }
        if str_eq(name, "par_p3") {
            return Some(Field { reg: 0x92, offset: 0, bits: 8, writable: false });
        }
        if str_eq(name, "par_p4") {
            return Some(Field { reg: 0x94, offset: 0, bits: 8, writable: false });
        }
        if str_eq(name, "par_p5") {
            return Some(Field { reg: 0x96, offset: 0, bits: 8, writable: false });
        }
        if str_eq(name, "par_p6") {
            return Some(Field { reg: 0x99, offset: 0, bits: 8, writable: false });
        }
        if str_eq(name, "par_p7") {
            return Some(Field { reg: 0x98, offset: 0, bits: 8, writable: false });
        }
        if str_eq(name, "par_p8") {
            return Some(Field { reg: 0x9c, offset: 0, bits: 8, writable: false });
        }
        if str_eq(name, "par_p9") {
            return Some(Field { reg: 0x9e, offset: 0, bits: 8, writable: false });
        }
        if str_eq(name, "par_p10") {
            return Some(Field { reg: 0xa0, offset: 0, bits: 8, writable: false });
        }
        if str_eq(name, "par_h1") {
            return Some(Field { reg: 0xe2, offset: 0, bits: 8, writable: false });
        }
        if str_eq(name, "par_h2") {
            return Some(Field { reg: 0xe1, offset: 0, bits: 8, writable: false });
        }
        if str_eq(name, "par_h3") {
            return Some(Field { reg: 0xe4, offset: 0, bits: 8, writable: false });
        }
        if str_eq(name, "par_h4") {
            return Some(Field { reg: 0xe5, offset: 0, bits: 8, writable: false });
        }
        if str_eq(name, "par_h5") {
            return Some(Field { reg: 0xe6, offset: 0, bits: 8, writable: false });
        }
        if str_eq(name, "par_h6") {
            return Some(Field { reg: 0xe7, offset: 0, bits: 8, writable: false });
        }
        if str_eq(name, "par_h7") {
            return Some(Field { reg: 0xe8, offset: 0, bits: 8, writable: false });
        }
        if str_eq(name, "par_g1") {
            return Some(Field { reg: 0xed, offset: 0, bits: 8, writable: false });
        }
        if str_eq(name, "par_g2") {
            return Some(Field { reg: 0xeb, offset: 0, bits: 8, writable: false });
        }
        if str_eq(name, "par_g3") {
            return Some(Field { reg: 0xee, offset: 0, bits: 8, writable: false });
        }
        if str_eq(name, "res_heat_range") {
            return Some(Field { reg: 0x02, offset: 4, bits: 2, writable: false });
        }
        if str_eq(name, "res_heat_val") {
            return Some(Field { reg: 0x00, offset: 0, bits: 8, writable: false });
        }
        if str_eq(name, "range_switching_error") {
            return Some(Field { reg: 0x04, offset: 0, bits: 8, writable: false });
        }
        None
    }
}

/// The descriptors of the fields that the sensor driver uses by name.
pub proof fn lemma_driver_fields()
    ensures
        bme680_field("par_t1"@) == Some(Field { reg: 0xe9, offset: 0, bits: 8, writable: false }),
        bme680_field("par_t2"@) == Some(Field { reg: 0x8a, offset: 0, bits: 8, writable: false }),
        bme680_field("par_t3"@) == Some(Field { reg: 0x8c, offset: 0, bits: 8, writable: false }),
        bme680_field("par_p1"@) == Some(Field { reg: 0x8e, offset: 0, bits: 8, writable: false }),
        bme680_field("par_p2"@) == Some(Field { reg: 0x90, offset: 0, bits: 8, writable: false }),
        bme680_field("par_p3"@) == Some(Field { reg: 0x92, offset: 0, bits: 8, writable: false }),
        bme680_field("par_p4"@) == Some(Field { reg: 0x94, offset: 0, bits: 8, writable: false }),
        bme680_field("par_p5"@) == Some(Field { reg: 0x96, offset: 0, bits: 8, writable: false }),
        bme680_field("par_p6"@) == Some(Field { reg: 0x99, offset: 0, bits: 8, writable: false }),
        bme680_field("par_p7"@) == Some(Field { reg: 0x98, offset: 0, bits: 8, writable: false }),
        bme680_field("par_p8"@) == Some(Field { reg: 0x9c, offset: 0, bits: 8, writable: false }),
        bme680_field("par_p9"@) == Some(Field { reg: 0x9e, offset: 0, bits: 8, writable: false }),
        bme680_field("par_p10"@) == Some(Field { reg: 0xa0, offset: 0, bits: 8, writable: false }),
        bme680_field("par_h1"@) == Some(Field { reg: 0xe2, offset: 0, bits: 8, writable: false }),
        bme680_field("par_h2"@) == Some(Field { reg: 0xe1, offset: 0, bits: 8, writable: false }),
        bme680_field("par_h3"@) == Some(Field { reg: 0xe4, offset: 0, bits: 8, writable: false }),
        bme680_field("par_h4"@) == Some(Field { reg: 0xe5, offset: 0, bits: 8, writable: false }),
        bme680_field("par_h5"@) == Some(Field { reg: 0xe6, offset: 0, bits: 8, writable: false }),
        bme680_field("par_h6"@) == Some(Field { reg: 0xe7, offset: 0, bits: 8, writable: false }),
        bme680_field("par_h7"@) == Some(Field { reg: 0xe8, offset: 0, bits: 8, writable: false }),
        bme680_field("par_g1"@) == Some(Field { reg: 0xed, offset: 0, bits: 8, writable: false }),
        bme680_field("par_g2"@) == Some(Field { reg: 0xeb, offset: 0, bits: 8, writable: false }),
        bme680_field("par_g3"@) == Some(Field { reg: 0xee, offset: 0, bits: 8, writable: false }),
        bme680_field("mode"@) == Some(Field { reg: 0x74, offset: 0, bits: 2, writable: true }),
        bme680_field("temp_msb"@) == Some(Field { reg: 0x22, offset: 0, bits: 8, writable: false }),
        bme680_field("res_heat_range"@) == Some(Field { reg: 0x02, offset: 4, bits: 2, writable: false }),
        bme680_field("res_heat_val"@) == Some(Field { reg: 0x00, offset: 0, bits: 8, writable: false }),
        bme680_field("osrs_h"@) == Some(Field { reg: 0x72, offset: 0, bits: 3, writable: true }),
        bme680_field("osrs_t"@) == Some(Field { reg: 0x74, offset: 5, bits: 3, writable: true }),
        bme680_field("osrs_p"@) == Some(Field { reg: 0x74, offset: 2, bits: 3, writable: true }),
        bme680_field("filter"@) == Some(Field { reg: 0x75, offset: 2, bits: 3, writable: true }),
        bme680_field("gas_range_r"@) == Some(Field { reg: 0x2b, offset: 0, bits: 4, writable: false }),
        bme680_field("run_gas"@) == Some(Field { reg: 0x71, offset: 4, bits: 1, writable: true }),
        bme680_field("nb_conv"@) == Some(Field { reg: 0x71, offset: 0, bits: 4, writable: true }),
        bme680_field("chip_id"@) == Some(Field { reg: 0xd0, offset: 0, bits: 8, writable: false }),
{
    reveal_strlit("status");
    reveal_strlit("reset");
    reveal_strlit("Id");
    reveal_strlit("chip_id");
    reveal_strlit("Config");
    reveal_strlit("filter");
    reveal_strlit("ctrl_meas");
    reveal_strlit("osrs_t");
    reveal_strlit("osrs_p");
    reveal_strlit("mode");
    reveal_strlit("Ctrl_hum");
    reveal_strlit("osrs_h");
    reveal_strlit("ctrl_gas_1");
    reveal_strlit("ctrl_gas_0");
    reveal_strlit("run_gas");
    reveal_strlit("nb_conv");
    reveal_strlit("heat_off");
    reveal_strlit("gas_wait_9");
    reveal_strlit("gas_wait_8");
    reveal_strlit("gas_wait_7");
    reveal_strlit("gas_wait_6");
    reveal_strlit("gas_wait_5");
    reveal_strlit("gas_wait_4");
    reveal_strlit("gas_wait_3");
    reveal_strlit("gas_wait_2");
    reveal_strlit("gas_wait_1");
    reveal_strlit("gas_wait_0");
    reveal_strlit("res_heat_9");
    reveal_strlit("res_heat_8");
    reveal_strlit("res_heat_7");
    reveal_strlit("res_heat_6");
    reveal_strlit("res_heat_5");
    reveal_strlit("res_heat_4");
    reveal_strlit("res_heat_3");
    reveal_strlit("res_heat_2");
    reveal_strlit("res_heat_1");
    reveal_strlit("res_heat_0");
    reveal_strlit("gas_r_lsb");
    reveal_strlit("gas_range_r");
    reveal_strlit("heat_stab_r");
    reveal_strlit("gas_valid_r");
    reveal_strlit("gas_r_msb");
    reveal_strlit("hum_lsb");
    reveal_strlit("hum_msb");
    reveal_strlit("temp_xlsb");
    reveal_strlit("temp_lsb");
    reveal_strlit("temp_msb");
    reveal_strlit("press_xlsb");
    reveal_strlit("press_lsb");
    reveal_strlit("press_msb");
    reveal_strlit("par_t1");
    reveal_strlit("par_t2");
    reveal_strlit("par_t3");
    reveal_strlit("par_p1");
    reveal_strlit("par_p2");
    reveal_strlit("par_p3");
    reveal_strlit("par_p4");
    reveal_strlit("par_p5");
    reveal_strlit("par_p6");
    reveal_strlit("par_p7");
    reveal_strlit("par_p8");
    reveal_strlit("par_p9");
    reveal_strlit("par_p10");
    reveal_strlit("par_h1");
    reveal_strlit("par_h2");
    reveal_strlit("par_h3");
    reveal_strlit("par_h4");
    reveal_strlit("par_h5");
    reveal_strlit("par_h6");
    reveal_strlit("par_h7");
    reveal_strlit("par_g1");
    reveal_strlit("par_g2");
    reveal_strlit("par_g3");
    reveal_strlit("res_heat_range");
    reveal_strlit("res_heat_val");
    reveal_strlit("range_switching_error");
    assert("par_p10"@.len() == 7);
    assert("par_p1"@.len() == 6);
    assert("par_t1"@[0] == 'p');
    assert("par_t1"@[1] == 'a');
    assert("par_t1"@[2] == 'r');
    assert("par_t1"@[3] == '_');
    assert("par_t1"@[4] == 't');
    assert("par_t1"@[5] == '1');
    assert("par_t2"@[0] == 'p');
    assert("par_t2"@[1] == 'a');
    assert("par_t2"@[2] == 'r');
    assert("par_t2"@[3] == '_');
    assert("par_t2"@[4] == 't');
    assert("par_t2"@[5] == '2');
    assert("par_t3"@[0] == 'p');
    assert("par_t3"@[1] == 'a');
    assert("par_t3"@[2] == 'r');
    assert("par_t3"@[3] == '_');
    assert("par_t3"@[4] == 't');
    assert("par_t3"@[5] == '3');
    assert("par_p1"@[0] == 'p');
    assert("par_p1"@[1] == 'a');
    assert("par_p1"@[2] == 'r');
    assert("par_p1"@[3] == '_');
    assert("par_p1"@[4] == 'p');
    assert("par_p1"@[5] == '1');
    assert("par_p2"@[0] == 'p');
    assert("par_p2"@[1] == 'a');
    assert("par_p2"@[2] == 'r');
    assert("par_p2"@[3] == '_');
    assert("par_p2"@[4] == 'p');
    assert("par_p2"@[5] == '2');
    assert("par_p3"@[0] == 'p');
    assert("par_p3"@[1] == 'a');
    assert("par_p3"@[2] == 'r');
    assert("par_p3"@[3] == '_');
    assert("par_p3"@[4] == 'p');
    assert("par_p3"@[5] == '3');
    assert("par_p4"@[0] == 'p');
    assert("par_p4"@[1] == 'a');
    assert("par_p4"@[2] == 'r');
    assert("par_p4"@[3] == '_');
    assert("par_p4"@[4] == 'p');
    assert("par_p4"@[5] == '4');
    assert("par_p5"@[0] == 'p');
    assert("par_p5"@[1] == 'a');
    assert("par_p5"@[2] == 'r');
    assert("par_p5"@[3] == '_');
    assert("par_p5"@[4] == 'p');
    assert("par_p5"@[5] == '5');
    assert("par_p6"@[0] == 'p');
    assert("par_p6"@[1] == 'a');
    assert("par_p6"@[2] == 'r');
    assert("par_p6"@[3] == '_');
    assert("par_p6"@[4] == 'p');
    assert("par_p6"@[5] == '6');
    assert("par_p7"@[0] == 'p');
    assert("par_p7"@[1] == 'a');
    assert("par_p7"@[2] == 'r');
    assert("par_p7"@[3] == '_');
    assert("par_p7"@[4] == 'p');
    assert("par_p7"@[5] == '7');
    assert("par_p8"@[0] == 'p');
    assert("par_p8"@[1] == 'a');
    assert("par_p8"@[2] == 'r');
    assert("par_p8"@[3] == '_');
    assert("par_p8"@[4] == 'p');
    assert("par_p8"@[5] == '8');
    assert("par_p9"@[0] == 'p');
    assert("par_p9"@[1] == 'a');
    assert("par_p9"@[2] == 'r');
    assert("par_p9"@[3] == '_');
    assert("par_p9"@[4] == 'p');
    assert("par_p9"@[5] == '9');
    assert("par_p10"@[0] == 'p');
    assert("par_p10"@[1] == 'a');
    assert("par_p10"@[2] == 'r');
    assert("par_p10"@[3] == '_');
    assert("par_p10"@[4] == 'p');
    assert("par_p10"@[5] == '1');
    assert("par_p10"@[6] == '0');
    assert("par_h1"@[0] == 'p');
    assert("par_h1"@[1] == 'a');
    assert("par_h1"@[2] == 'r');
    assert("par_h1"@[3] == '_');
    assert("par_h1"@[4] == 'h');
    assert("par_h1"@[5] == '1');
    assert("par_h2"@[0] == 'p');
    assert("par_h2"@[1] == 'a');
    assert("par_h2"@[2] == 'r');
    assert("par_h2"@[3] == '_');
    assert("par_h2"@[4] == 'h');
    assert("par_h2"@[5] == '2');
    assert("par_h3"@[0] == 'p');
    assert("par_h3"@[1] == 'a');
    assert("par_h3"@[2] == 'r');
    assert("par_h3"@[3] == '_');
    assert("par_h3"@[4] == 'h');
    assert("par_h3"@[5] == '3');
    assert("par_h4"@[0] == 'p');
    assert("par_h4"@[1] == 'a');
    assert("par_h4"@[2] == 'r');
    assert("par_h4"@[3] == '_');
    assert("par_h4"@[4] == 'h');
    assert("par_h4"@[5] == '4');
    assert("par_h5"@[0] == 'p');
    assert("par_h5"@[1] == 'a');
    assert("par_h5"@[2] == 'r');
    assert("par_h5"@[3] == '_');
    assert("par_h5"@[4] == 'h');
    assert("par_h5"@[5] == '5');
    assert("par_h6"@[0] == 'p');
    assert("par_h6"@[1] == 'a');
    assert("par_h6"@[2] == 'r');
    assert("par_h6"@[3] == '_');
    assert("par_h6"@[4] == 'h');
    assert("par_h6"@[5] == '6');
    assert("par_h7"@[0] == 'p');
    assert("par_h7"@[1] == 'a');
    assert("par_h7"@[2] == 'r');
    assert("par_h7"@[3] == '_');
    assert("par_h7"@[4] == 'h');
    assert("par_h7"@[5] == '7');
    assert("par_g1"@[0] == 'p');
    assert("par_g1"@[1] == 'a');
    assert("par_g1"@[2] == 'r');
    assert("par_g1"@[3] == '_');
    assert("par_g1"@[4] == 'g');
    assert("par_g1"@[5] == '1');
    assert("par_g2"@[0] == 'p');
    assert("par_g2"@[1] == 'a');
    assert("par_g2"@[2] == 'r');
    assert("par_g2"@[3] == '_');
    assert("par_g2"@[4] == 'g');
    assert("par_g2"@[5] == '2');
    assert("par_g3"@[0] == 'p');
    assert("par_g3"@[1] == 'a');
    assert("par_g3"@[2] == 'r');
    assert("par_g3"@[3] == '_');
    assert("par_g3"@[4] == 'g');
    assert("par_g3"@[5] == '3');
    assert("mode"@[0] == 'm');
    assert("mode"@[1] == 'o');
    assert("mode"@[2] == 'd');
    assert("mode"@[3] == 'e');
    assert("temp_msb"@[0] == 't');
    assert("temp_msb"@[1] == 'e');
    assert("temp_msb"@[2] == 'm');
    assert("temp_msb"@[3] == 'p');
    assert("temp_msb"@[4] == '_');
    assert("temp_msb"@[5] == 'm');
    assert("temp_msb"@[6] == 's');
    assert("temp_msb"@[7] == 'b');
    assert("res_heat_range"@[0] == 'r');
    assert("res_heat_range"@[1] == 'e');
    assert("res_heat_range"@[2] == 's');
    assert("res_heat_range"@[3] == '_');
    assert("res_heat_range"@[4] == 'h');
    assert("res_heat_range"@[5] == 'e');
    assert("res_heat_range"@[6] == 'a');
    assert("res_heat_range"@[7] == 't');
    assert("res_heat_range"@[8] == '_');
    assert("res_heat_range"@[9] == 'r');
    assert("res_heat_range"@[10] == 'a');
    assert("res_heat_range"@[11] == 'n');
    assert("res_heat_range"@[12] == 'g');
    assert("res_heat_range"@[13] == 'e');
    assert("res_heat_val"@[0] == 'r');
    assert("res_heat_val"@[1] == 'e');
    assert("res_heat_val"@[2] == 's');
    assert("res_heat_val"@[3] == '_');
    assert("res_heat_val"@[4] == 'h');
    assert("res_heat_val"@[5] == 'e');
    assert("res_heat_val"@[6] == 'a');
    assert("res_heat_val"@[7] == 't');
    assert("res_heat_val"@[8] == '_');
    assert("res_heat_val"@[9] == 'v');
    assert("res_heat_val"@[10] == 'a');
    assert("res_heat_val"@[11] == 'l');
    assert("osrs_h"@[0] == 'o');
    assert("osrs_h"@[1] == 's');
    assert("osrs_h"@[2] == 'r');
    assert("osrs_h"@[3] == 's');
    assert("osrs_h"@[4] == '_');
    assert("osrs_h"@[5] == 'h');
    assert("osrs_t"@[0] == 'o');
    assert("osrs_t"@[1] == 's');
    assert("osrs_t"@[2] == 'r');
    assert("osrs_t"@[3] == 's');
    assert("osrs_t"@[4] == '_');
    assert("osrs_t"@[5] == 't');
    assert("osrs_p"@[0] == 'o');
    assert("osrs_p"@[1] == 's');
    assert("osrs_p"@[2] == 'r');
    assert("osrs_p"@[3] == 's');
    assert("osrs_p"@[4] == '_');
    assert("osrs_p"@[5] == 'p');
    assert("filter"@[0] == 'f');
    assert("filter"@[1] == 'i');
    assert("filter"@[2] == 'l');
    assert("filter"@[3] == 't');
    assert("filter"@[4] == 'e');
    assert("filter"@[5] == 'r');
    assert("gas_range_r"@[0] == 'g');
    assert("gas_range_r"@[1] == 'a');
    assert("gas_range_r"@[2] == 's');
    assert("gas_range_r"@[3] == '_');
    assert("gas_range_r"@[4] == 'r');
    assert("gas_range_r"@[5] == 'a');
    assert("gas_range_r"@[6] == 'n');
    assert("gas_range_r"@[7] == 'g');
    assert("gas_range_r"@[8] == 'e');
    assert("gas_range_r"@[9] == '_');
    assert("gas_range_r"@[10] == 'r');
    assert("run_gas"@[0] == 'r');
    assert("run_gas"@[1] == 'u');
    assert("run_gas"@[2] == 'n');
    assert("run_gas"@[3] == '_');
    assert("run_gas"@[4] == 'g');
    assert("run_gas"@[5] == 'a');
    assert("run_gas"@[6] == 's');
    assert("nb_conv"@[0] == 'n');
    assert("nb_conv"@[1] == 'b');
    assert("nb_conv"@[2] == '_');
    assert("nb_conv"@[3] == 'c');
    assert("nb_conv"@[4] == 'o');
    assert("nb_conv"@[5] == 'n');
    assert("nb_conv"@[6] == 'v');
    assert("chip_id"@[0] == 'c');
    assert("chip_id"@[1] == 'h');
    assert("chip_id"@[2] == 'i');
    assert("chip_id"@[3] == 'p');
    assert("chip_id"@[4] == '_');
    assert("chip_id"@[5] == 'i');
    assert("chip_id"@[6] == 'd');
}

/// The heater-profile register `base + n` as a full-width writable field.
pub open spec fn profile_field(base: u8, n: u8) -> Field {
    Field { reg: (base + n) as u8, offset: 0, bits: 8, writable: true }
}

/// The heater-profile fields `res_heat_<n>` and `gas_wait_<n>` exist for the
/// profiles 0 to 9, at consecutive registers; for any other number there is
/// no such field.
pub proof fn lemma_profile_fields(n: u8)
    ensures
        n <= 9 ==> bme680_field("res_heat_"@ + decimal(n as nat)) == Some(profile_field(0x5a, n)),
        n <= 9 ==> bme680_field("gas_wait_"@ + decimal(n as nat)) == Some(profile_field(0x64, n)),
        n > 9 ==> bme680_field("res_heat_"@ + decimal(n as nat)) is None,
        n > 9 ==> bme680_field("gas_wait_"@ + decimal(n as nat)) is None,
{
    reveal_with_fuel(decimal, 3);
    reveal_strlit("status");
    reveal_strlit("reset");
    reveal_strlit("Id");
    reveal_strlit("chip_id");
    reveal_strlit("Config");
    reveal_strlit("filter");
    reveal_strlit("ctrl_meas");
    reveal_strlit("osrs_t");
    reveal_strlit("osrs_p");
    reveal_strlit("mode");
    reveal_strlit("Ctrl_hum");
    reveal_strlit("osrs_h");
    reveal_strlit("ctrl_gas_1");
    reveal_strlit("ctrl_gas_0");
    reveal_strlit("run_gas");
    reveal_strlit("nb_conv");
    reveal_strlit("heat_off");
    reveal_strlit("gas_wait_9");
    reveal_strlit("gas_wait_8");
    reveal_strlit("gas_wait_7");
    reveal_strlit("gas_wait_6");
    reveal_strlit("gas_wait_5");
    reveal_strlit("gas_wait_4");
    reveal_strlit("gas_wait_3");
    reveal_strlit("gas_wait_2");
    reveal_strlit("gas_wait_1");
    reveal_strlit("gas_wait_0");
    reveal_strlit("res_heat_9");
    reveal_strlit("res_heat_8");
    reveal_strlit("res_heat_7");
    reveal_strlit("res_heat_6");
    reveal_strlit("res_heat_5");
    reveal_strlit("res_heat_4");
    reveal_strlit("res_heat_3");
    reveal_strlit("res_heat_2");
    reveal_strlit("res_heat_1");
    reveal_strlit("res_heat_0");
    reveal_strlit("gas_r_lsb");
    reveal_strlit("gas_range_r");
    reveal_strlit("heat_stab_r");
    reveal_strlit("gas_valid_r");
    reveal_strlit("gas_r_msb");
    reveal_strlit("hum_lsb");
    reveal_strlit("hum_msb");
    reveal_strlit("temp_xlsb");
    reveal_strlit("temp_lsb");
    reveal_strlit("temp_msb");
    reveal_strlit("press_xlsb");
    reveal_strlit("press_lsb");
    reveal_strlit("press_msb");
    reveal_strlit("par_t1");
    reveal_strlit("par_t2");
    reveal_strlit("par_t3");
    reveal_strlit("par_p1");
    reveal_strlit("par_p2");
    reveal_strlit("par_p3");
    reveal_strlit("par_p4");
    reveal_strlit("par_p5");
    reveal_strlit("par_p6");
    reveal_strlit("par_p7");
    reveal_strlit("par_p8");
    reveal_strlit("par_p9");
    reveal_strlit("par_p10");
    reveal_strlit("par_h1");
    reveal_strlit("par_h2");
    reveal_strlit("par_h3");
    reveal_strlit("par_h4");
    reveal_strlit("par_h5");
    reveal_strlit("par_h6");
    reveal_strlit("par_h7");
    reveal_strlit("par_g1");
    reveal_strlit("par_g2");
    reveal_strlit("par_g3");
    reveal_strlit("res_heat_range");
    reveal_strlit("res_heat_val");
    reveal_strlit("range_switching_error");
    reveal_strlit("res_heat_");
    reveal_strlit("gas_wait_");
    assert("res_heat_"@.len() == 9 && "gas_wait_"@.len() == 9);
    assert(decimal(n as nat).len() >= 1);
    let heat = "res_heat_"@ + decimal(n as nat);
    let wait = "gas_wait_"@ + decimal(n as nat);
    assert(heat.len() >= 10 && wait.len() >= 10);
    assert(heat[0] == "res_heat_"@[0]);
    assert(heat[0] == 'r' && heat[1] == 'e' && heat[2] == 's' && heat[3] == '_');
    assert(heat[4] == 'h' && heat[5] == 'e' && heat[6] == 'a' && heat[7] == 't' && heat[8] == '_');
    assert(wait[0] == 'g' && wait[1] == 'a' && wait[2] == 's' && wait[3] == '_');
    assert(wait[4] == 'w' && wait[5] == 'a' && wait[6] == 'i' && wait[7] == 't' && wait[8] == '_');
    if n == 0 {
        reveal_strlit("res_heat_0");
        reveal_strlit("gas_wait_0");
        assert(heat =~= "res_heat_0"@);
        assert(heat[9] == "res_heat_0"@[9]);
        assert(wait =~= "gas_wait_0"@);
        assert(wait[9] == "gas_wait_0"@[9]);
    } else if n == 1 {
        reveal_strlit("res_heat_1");
        reveal_strlit("gas_wait_1");
        assert(heat =~= "res_heat_1"@);
        assert(heat[9] == "res_heat_1"@[9]);
        assert(wait =~= "gas_wait_1"@);
        assert(wait[9] == "gas_wait_1"@[9]);
    } else if n == 2 {
        reveal_strlit("res_heat_2");
        reveal_strlit("gas_wait_2");
        assert(heat =~= "res_heat_2"@);
        assert(heat[9] == "res_heat_2"@[9]);
        assert(wait =~= "gas_wait_2"@);
        assert(wait[9] == "gas_wait_2"@[9]);
    } else if n == 3 {
        reveal_strlit("res_heat_3");
        reveal_strlit("gas_wait_3");
        assert(heat =~= "res_heat_3"@);
        assert(heat[9] == "res_heat_3"@[9]);
        assert(wait =~= "gas_wait_3"@);
        assert(wait[9] == "gas_wait_3"@[9]);
    } else if n == 4 {
        reveal_strlit("res_heat_4");
        reveal_strlit("gas_wait_4");
        assert(heat =~= "res_heat_4"@);
        assert(heat[9] == "res_heat_4"@[9]);
        assert(wait =~= "gas_wait_4"@);
        assert(wait[9] == "gas_wait_4"@[9]);
    } else if n == 5 {
        reveal_strlit("res_heat_5");
        reveal_strlit("gas_wait_5");
        assert(heat =~= "res_heat_5"@);
        assert(heat[9] == "res_heat_5"@[9]);
        assert(wait =~= "gas_wait_5"@);
        assert(wait[9] == "gas_wait_5"@[9]);
    } else if n == 6 {
        reveal_strlit("res_heat_6");
        reveal_strlit("gas_wait_6");
        assert(heat =~= "res_heat_6"@);
        assert(heat[9] == "res_heat_6"@[9]);
        assert(wait =~= "gas_wait_6"@);
        assert(wait[9] == "gas_wait_6"@[9]);
    } else if n == 7 {
        reveal_strlit("res_heat_7");
        reveal_strlit("gas_wait_7");
        assert(heat =~= "res_heat_7"@);
        assert(heat[9] == "res_heat_7"@[9]);
        assert(wait =~= "gas_wait_7"@);
        assert(wait[9] == "gas_wait_7"@[9]);
    } else if n == 8 {
        reveal_strlit("res_heat_8");
        reveal_strlit("gas_wait_8");
        assert(heat =~= "res_heat_8"@);
        assert(heat[9] == "res_heat_8"@[9]);
        assert(wait =~= "gas_wait_8"@);
        assert(wait[9] == "gas_wait_8"@[9]);
    } else if n == 9 {
        reveal_strlit("res_heat_9");
        reveal_strlit("gas_wait_9");
        assert(heat =~= "res_heat_9"@);
        assert(heat[9] == "res_heat_9"@[9]);
        assert(wait =~= "gas_wait_9"@);
        assert(wait[9] == "gas_wait_9"@[9]);
    } else {
        assert(decimal(n as nat).len() >= 2);
        assert(decimal(n as nat)[0] == digit_char((n / 100) as int) || decimal(n as nat).len() == 2);
        assert(heat[9] == decimal(n as nat)[0]);
        assert(digit_char((n / 100) as int) != 'v');
        assert(heat.len() >= 11 && wait.len() >= 11);
    }
}

} // verus!
