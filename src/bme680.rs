//! The BME680 sensor: calibration constants, temperature compensation and
//! heater-resistance targets.
use vstd::prelude::*;

use crate::bme680_map::{lemma_driver_fields, lemma_profile_fields, profile_field, Bme680FieldMap};
use crate::chip::{
    extends, lemma_since_split, rmw_done, is_read, is_write, one_more, since, status, status_with, succeeded, Bus, Chip,
    I2CError, Transfer,
};
use crate::chip_map::{field_get, field_set, lemma_full_width_field, Field};
use crate::names::numbered_name;

verus! {

/// The sensor's factory calibration constants, with the width and sign that
/// the datasheet gives each one.
#[derive(Clone, Copy, Debug, PartialEq, Eq, Structural)]
pub struct CalCodes {
    // Pressure
    pub par_p10: u8,
    pub par_p9: i16,
    pub par_p8: i16,
    pub par_p7: i8,
    pub par_p6: i8,
    pub par_p5: i16,
    pub par_p4: i16,
    pub par_p3: i8,
    pub par_p2: i16,
    pub par_p1: u16,
    // Temperature
    pub par_t3: i16,
    pub par_t2: i16,
    pub par_t1: u16,
    // Humidity
    pub par_h7: i8,
    pub par_h6: u8,
    pub par_h5: i8,
    pub par_h4: i8,
    pub par_h3: i8,
    pub par_h2: u16,
    pub par_h1: u16,
    // Gas
    pub par_g3: i8,
    pub par_g2: i16,
    pub par_g1: i8,
    // Misc
    pub res_heat_range: i8,
    pub res_heat_val: i8,
    pub gas_adc: i16,
    pub gas_range: i8,
    pub range_switching_error: i8,
}

impl CalCodes {
    /// Every constant zero.
    pub open spec fn zeroed() -> CalCodes {
        CalCodes {
            par_p10: 0,
            par_p9: 0,
            par_p8: 0,
            par_p7: 0,
            par_p6: 0,
            par_p5: 0,
            par_p4: 0,
            par_p3: 0,
            par_p2: 0,
            par_p1: 0,
            par_t3: 0,
            par_t2: 0,
            par_t1: 0,
            par_h7: 0,
            par_h6: 0,
            par_h5: 0,
            par_h4: 0,
            par_h3: 0,
            par_h2: 0,
            par_h1: 0,
            par_g3: 0,
            par_g2: 0,
            par_g1: 0,
            res_heat_range: 0,
            res_heat_val: 0,
            gas_adc: 0,
            gas_range: 0,
            range_switching_error: 0,
        }
    }
}

impl Default for CalCodes {
    fn default() -> (r: CalCodes)
        ensures
            r == CalCodes::zeroed(),
    {
        CalCodes {
            par_p10: 0,
            par_p9: 0,
            par_p8: 0,
            par_p7: 0,
            par_p6: 0,
            par_p5: 0,
            par_p4: 0,
            par_p3: 0,
            par_p2: 0,
            par_p1: 0,
            par_t3: 0,
            par_t2: 0,
            par_t1: 0,
            par_h7: 0,
            par_h6: 0,
            par_h5: 0,
            par_h4: 0,
            par_h3: 0,
            par_h2: 0,
            par_h1: 0,
            par_g3: 0,
            par_g2: 0,
            par_g1: 0,
            res_heat_range: 0,
            res_heat_val: 0,
            gas_adc: 0,
            gas_range: 0,
            range_switching_error: 0,
        }
    }
}

/// The unsigned 16-bit value with low byte `lo` and high byte `hi`.
pub open spec fn le_u16(lo: u8, hi: u8) -> int {
    lo + 256 * hi
}

/// The two's-complement 16-bit value with low byte `lo` and high byte `hi`.
pub open spec fn le_i16(lo: u8, hi: u8) -> int {
    if hi < 128 {
        lo + 256 * hi
    } else {
        lo + 256 * hi - 65536
    }
}

/// The two's-complement value of the byte `b`.
pub open spec fn signed8(b: u8) -> int {
    if b < 128 {
        b as int
    } else {
        b - 256
    }
}

/// `lo` with `hi` shifted above it, unsigned.
fn join_u16(lo: u8, hi: u8) -> (r: u16)
    ensures
        r == le_u16(lo, hi),
{
    let r = (lo as u16) | ((hi as u16) << 8);
    assert(r == le_u16(lo, hi)) by (bit_vector)
        requires
            r == (lo as u16) | ((hi as u16) << 8),
    ;
    r
}

/// `lo` with `hi` shifted above it, as a two's-complement value.
fn join_i16(lo: u8, hi: u8) -> (r: i16)
    ensures
        r == le_i16(lo, hi),
{
    let r = (lo as i16) | ((hi as i16) << 8);
    assert(r == le_i16(lo, hi)) by (bit_vector)
        requires
            r == (lo as i16) | ((hi as i16) << 8),
    ;
    r
}

/// The byte `b` read as a two's-complement value.
fn to_i8(b: u8) -> (r: i8)
    ensures
        r == signed8(b),
{
    let r = b as i8;
    assert(r == signed8(b)) by (bit_vector)
        requires
            r == b as i8,
    ;
    r
}

/// The low nibble of `lo` with `hi` shifted above it.
fn join_h1(lo: u8, hi: u8) -> (r: u16)
    ensures
        r == lo % 16 + 16 * hi,
{
    let r = ((lo & 0x0F) as u16) | ((hi as u16) << 4);
    assert(r == lo % 16 + 16 * hi) by (bit_vector)
        requires
            r == ((lo & 0x0F) as u16) | ((hi as u16) << 4),
    ;
    r
}

/// `lo` shifted above the high nibble of `hi`.
fn join_h2(lo: u8, hi: u8) -> (r: u16)
    ensures
        r == 16 * lo + hi / 16,
{
    let r = ((lo as u16) << 4) | ((hi as u16) >> 4);
    assert(r == 16 * lo + hi / 16) by (bit_vector)
        requires
            r == ((lo as u16) << 4) | ((hi as u16) >> 4),
    ;
    r
}

/// The registers that calibration bytes are read from, in reading order.
/// Where a constant spans two registers its field register comes first and
/// its companion register second.
pub open spec fn cal_regs() -> Seq<u8> {
    seq![
        0xe9u8, 0xea, 0x8a, 0x8b, 0x8c,
        0x8e, 0x8f, 0x90, 0x91, 0x92, 0x94, 0x95, 0x96, 0x97, 0x99, 0x98, 0x9c, 0x9d, 0x9e, 0x9f, 0xa0,
        0xe2, 0xe3, 0xe1, 0xe2, 0xe4, 0xe5, 0xe6, 0xe7, 0xe8,
        0xed, 0xeb, 0xec, 0xee,
    ]
}

/// How many calibration bytes are read.
pub const CAL_BYTES: usize = 34;

/// The calibration constants of `c` are those that the bytes `raw`, read
/// from `cal_regs()` in order, encode.
pub open spec fn assembled(c: CalCodes, raw: Seq<u8>) -> bool {
    &&& c.par_t1 == le_u16(raw[0], raw[1])
    &&& c.par_t2 == le_i16(raw[2], raw[3])
    &&& c.par_t3 == signed8(raw[4])
    &&& c.par_p1 == le_u16(raw[5], raw[6])
    &&& c.par_p2 == le_i16(raw[7], raw[8])
    &&& c.par_p3 == signed8(raw[9])
    &&& c.par_p4 == le_i16(raw[10], raw[11])
    &&& c.par_p5 == le_i16(raw[12], raw[13])
    &&& c.par_p6 == signed8(raw[14])
    &&& c.par_p7 == signed8(raw[15])
    &&& c.par_p8 == le_i16(raw[16], raw[17])
    &&& c.par_p9 == le_i16(raw[18], raw[19])
    &&& c.par_p10 == raw[20]
    &&& c.par_h1 == raw[21] % 16 + 16 * raw[22]
    &&& c.par_h2 == 16 * raw[23] + raw[24] / 16
    &&& c.par_h3 == signed8(raw[25])
    &&& c.par_h4 == signed8(raw[26])
    &&& c.par_h5 == signed8(raw[27])
    &&& c.par_h6 == raw[28]
    &&& c.par_h7 == signed8(raw[29])
    &&& c.par_g1 == signed8(raw[30])
    &&& c.par_g2 == le_i16(raw[31], raw[32])
    &&& c.par_g3 == signed8(raw[33])
}

/// `c` and `d` hold the same values besides the calibration constants.
pub open spec fn same_misc(c: CalCodes, d: CalCodes) -> bool {
    &&& c.res_heat_range == d.res_heat_range
    &&& c.res_heat_val == d.res_heat_val
    &&& c.gas_adc == d.gas_adc
    &&& c.gas_range == d.gas_range
    &&& c.range_switching_error == d.range_switching_error
}

impl CalCodes {
    /// Sets every calibration constant from the bytes `raw`, read from
    /// `cal_regs()` in order.
    pub fn assemble(&mut self, raw: &[u8])
        requires
            raw@.len() == CAL_BYTES,
        ensures
            assembled(*final(self), raw@),
            same_misc(*final(self), *old(self)),
    {
        // Temperature
        self.par_t1 = join_u16(raw[0], raw[1]);
        self.par_t2 = join_i16(raw[2], raw[3]);
        self.par_t3 = to_i8(raw[4]) as i16;
        // Pressure
        self.par_p1 = join_u16(raw[5], raw[6]);
        self.par_p2 = join_i16(raw[7], raw[8]);
        self.par_p3 = to_i8(raw[9]);
        self.par_p4 = join_i16(raw[10], raw[11]);
        self.par_p5 = join_i16(raw[12], raw[13]);
        self.par_p6 = to_i8(raw[14]);
        self.par_p7 = to_i8(raw[15]);
        self.par_p8 = join_i16(raw[16], raw[17]);
        self.par_p9 = join_i16(raw[18], raw[19]);
        self.par_p10 = raw[20];
        // Humidity
        self.par_h1 = join_h1(raw[21], raw[22]);
        self.par_h2 = join_h2(raw[23], raw[24]);
        self.par_h3 = to_i8(raw[25]);
        self.par_h4 = to_i8(raw[26]);
        self.par_h5 = to_i8(raw[27]);
        self.par_h6 = raw[28];
        self.par_h7 = to_i8(raw[29]);
        // Gas
        self.par_g1 = to_i8(raw[30]);
        self.par_g2 = join_i16(raw[31], raw[32]);
        self.par_g3 = to_i8(raw[33]);
    }
}

/// The 20-bit raw temperature code packed from the MSB, LSB and XLSB
/// register bytes; the XLSB contributes its high nibble.
pub open spec fn temp_adc_of(msb: u8, lsb: u8, xlsb: u8) -> int {
    msb * 4096 + lsb * 16 + xlsb / 16
}

/// The fine temperature of the datasheet's integer compensation for the raw
/// code `adc`. Each right shift of the datasheet is a floor division here.
pub open spec fn t_fine_of(c: CalCodes, adc: int) -> int {
    let var1 = adc / 8 - 2 * c.par_t1;
    let var2 = (var1 * c.par_t2) / 2048;
    let var3 = ((var1 / 2) * (var1 / 2) / 4096) * (c.par_t3 * 16) / 16384;
    var2 + var3
}

/// The compensated temperature, in hundredths of a degree Celsius, for the
/// fine temperature `t_fine`.
pub open spec fn temp_comp_of(t_fine: int) -> int {
    (t_fine * 5 + 128) / 256
}

/// Packs the three temperature register bytes into the 20-bit raw code.
pub fn pack_temp_adc(msb: u8, lsb: u8, xlsb: u8) -> (r: u32)
    ensures
        r == temp_adc_of(msb, lsb, xlsb),
        r < 0x100000,
{
    let r = ((msb as u32) << 12) | ((lsb as u32) << 4) | ((xlsb as u32) >> 4);
    assert(r == msb * 4096 + lsb * 16 + xlsb / 16 && r < 0x100000) by (bit_vector)
        requires
            r == ((msb as u32) << 12) | ((lsb as u32) << 4) | ((xlsb as u32) >> 4),
    ;
    r
}

proof fn lemma_shifts_i64(x: i64)
    by (bit_vector)
    ensures
        x >> 1 == x / 2,
        x >> 11 == x / 2048,
        x >> 12 == x / 4096,
        x >> 14 == x / 16384,
        -0x1000_0000 < x < 0x1000_0000 ==> x << 4 == x * 16,
{
}

proof fn lemma_shifts_i32(x: i32)
    by (bit_vector)
    ensures
        x >> 3 == x / 8,
        x >> 8 == x / 256,
        0 <= x < 0x1000_0000 ==> x << 1 == x * 2,
{
}

/// Integer division that rounds toward zero, for a positive divisor `b`.
pub open spec fn div_trunc(a: int, b: int) -> int {
    if a >= 0 {
        a / b
    } else {
        -((-a) / b)
    }
}

/// A hundred times the heater-resistance code of the datasheet's integer
/// formula, for the ambient temperature `amb_temp` in degrees Celsius, the
/// target temperature `target_temp`, and the device's heater range and
/// heater value. Divisions round toward zero; the halving of `var2` rounds
/// down.
pub open spec fn res_heat_x100_of(c: CalCodes, amb_temp: int, target_temp: int, range: int, val: int) -> int {
    let var1 = div_trunc(amb_temp * c.par_g3, 10) * 256;
    let var2 = (c.par_g1 + 784) * div_trunc(
        div_trunc((c.par_g2 + 154009) * target_temp * 5, 100) + 3276800,
        10,
    );
    let var3 = var1 + var2 / 2;
    let var4 = div_trunc(var3, range + 4);
    let var5 = 131 * val + 65536;
    (div_trunc(var4, var5) - 250) * 34
}

/// The heater-resistance register byte for the target temperature
/// `target_temp`, given the compensated ambient temperature `temp_comp` in
/// hundredths of a degree: the rounded code, truncated to one byte.
pub open spec fn res_heat_of(c: CalCodes, temp_comp: int, target_temp: int, range: u8, val: u8) -> u8 {
    (div_trunc(
        res_heat_x100_of(c, div_trunc(temp_comp, 100), target_temp, range as int, val as int) + 50,
        100,
    )) as u8
}

/// The heater-resistance register byte for the target temperature
/// `target_temp`, with the compensated ambient temperature `temp_comp` (in
/// hundredths of a degree Celsius) and the device's heater range and value.
pub fn heater_resistance(
    cal_codes: &CalCodes,
    temp_comp: i32,
    target_temp: i16,
    res_heat_range: u8,
    res_heat_val: u8,
) -> (r: u8)
    ensures
        r == res_heat_of(*cal_codes, temp_comp as int, target_temp as int, res_heat_range, res_heat_val),
{
    let par_g1 = cal_codes.par_g1 as i64;
    let par_g2 = cal_codes.par_g2 as i64;
    let par_g3 = cal_codes.par_g3 as i64;
    let amb_temp = (temp_comp / 100) as i64;
    let range = res_heat_range as i64;
    let val = res_heat_val as i64;
    let target = target_temp as i64;
    let ghost c = *cal_codes;
    assert(amb_temp == div_trunc(temp_comp as int, 100));

    assert(-0x1_0000_0000 <= amb_temp * par_g3 <= 0x1_0000_0000) by (nonlinear_arith)
        requires
            -0x200_0000 <= amb_temp <= 0x200_0000,
            -128 <= par_g3 < 128,
    ;
    let var1 = ((amb_temp * par_g3) / 10) * 256;
    assert(var1 == div_trunc(amb_temp * c.par_g3, 10) * 256);

    assert(-0x2_0000_0000 <= (par_g2 + 154_009) * target <= 0x2_0000_0000) by (nonlinear_arith)
        requires
            0 < par_g2 + 154_009 <= 0x3_0000,
            -32768 <= target < 32768,
    ;
    let scaled = (par_g2 + 154_009) * target * 5;
    assert(scaled == (c.par_g2 + 154009) * target_temp * 5);
    let inner = (scaled / 100 + 3_276_800) / 10;
    assert(inner == div_trunc(div_trunc(scaled as int, 100) + 3276800, 10));
    assert(-0x400_0000 <= inner <= 0x400_0000);
    assert(-0x10_0000_0000 <= (par_g1 + 784) * inner <= 0x10_0000_0000) by (nonlinear_arith)
        requires
            0 < par_g1 + 784 <= 1024,
            -0x400_0000 <= inner <= 0x400_0000,
    ;
    let var2 = (par_g1 + 784) * inner;
    proof {
        lemma_shifts_i64(var2);
    }
    let var3 = var1 + (var2 >> 1);
    let var4 = var3 / (range + 4);
    let var5 = 131 * val + 65_536;
    let res_heat_x100 = ((var4 / var5) - 250) * 34;
    let res_heat = (res_heat_x100 + 50) / 100;
    assert(res_heat_x100 == res_heat_x100_of(c, div_trunc(temp_comp as int, 100), target_temp as int, range as int, val as int));
    #[verifier::truncate]
    (res_heat as u8)
}

/// The transactions `seg` read calibration bytes one by one from the
/// device at `address`, from the registers `cal_regs()` in order, and stopped
/// at the first failure or after the last byte.
pub open spec fn cal_reads<E>(seg: Seq<Transfer<E>>, address: u8) -> bool {
    &&& 1 <= seg.len() <= CAL_BYTES
    &&& forall|j: int| 0 <= j < seg.len() ==> is_read(#[trigger] seg[j], address, cal_regs()[j], 1)
    &&& forall|j: int| 0 <= j < seg.len() - 1 ==> succeeded(#[trigger] seg[j])
    &&& succeeded(seg.last()) ==> seg.len() == CAL_BYTES
}

/// The first byte read by each of the first `n` transactions of `seg`.
pub open spec fn first_bytes<E>(seg: Seq<Transfer<E>>, n: int) -> Seq<u8> {
    Seq::new(n as nat, |j: int| seg[j].read[0])
}

/// The device answered `t` with the BME680 chip identifier.
pub open spec fn id_found<E>(t: Transfer<E>) -> bool {
    succeeded(t) && t.read[0] == 0x61
}

/// The transactions `seg` of a probe: the chip-identifier register is read
/// at address 0x76 and, if that did not give the BME680 identifier, at 0x77.
pub open spec fn probe_reads<E>(seg: Seq<Transfer<E>>) -> bool {
    &&& 1 <= seg.len()
    &&& is_read(seg[0], 0x76, 0xd0, 1)
    &&& if id_found(seg[0]) {
        seg.len() == 1
    } else {
        seg.len() == 2 && is_read(seg[1], 0x77, 0xd0, 1)
    }
}

/// The address that a probe with transactions `seg` found.
pub open spec fn probe_result<E>(seg: Seq<Transfer<E>>) -> Result<u8, I2CError<E>> {
    if id_found(seg[0]) {
        Ok(0x76)
    } else if id_found(seg[1]) {
        Ok(0x77)
    } else {
        Err(I2CError::DeviceNotFound)
    }
}

/// The transactions `seg` read every calibration byte successfully.
pub open spec fn cal_complete<E>(seg: Seq<Transfer<E>>, address: u8) -> bool {
    cal_reads(seg, address) && succeeded(seg.last())
}

/// The mode field of the ctrl_meas register.
pub open spec fn mode_field() -> Field {
    Field { reg: 0x74, offset: 0, bits: 2, writable: true }
}

/// The transactions `seg` of one temperature measurement on the device at
/// `address`: the mode field is set to forced mode by read-modify-write, then
/// the three temperature registers are read in one burst; a failed
/// transaction ends the measurement.
pub open spec fn temperature_reads<E>(seg: Seq<Transfer<E>>, address: u8) -> bool {
    &&& 1 <= seg.len() <= 3
    &&& is_read(seg[0], address, 0x74, 1)
    &&& seg.len() >= 2 ==> succeeded(seg[0]) && is_write(
        seg[1],
        address,
        0x74,
        field_set(seg[0].read[0], mode_field(), 1),
    )
    &&& seg.len() == 3 ==> succeeded(seg[1]) && is_read(seg[2], address, 0x22, 3)
    &&& succeeded(seg.last()) ==> seg.len() == 3
}

/// The raw temperature code of a measurement's burst read.
pub open spec fn measured_adc<E>(seg: Seq<Transfer<E>>) -> int {
    temp_adc_of(seg[2].read[0], seg[2].read[1], seg[2].read[2])
}

/// How many transactions a temperature measurement that begins `seg` took.
pub open spec fn temp_len<E>(seg: Seq<Transfer<E>>) -> int {
    if !succeeded(seg[0]) {
        1
    } else if !succeeded(seg[1]) {
        2
    } else {
        3
    }
}

/// The heater-range field of the device.
pub open spec fn res_heat_range_field() -> Field {
    Field { reg: 0x02, offset: 4, bits: 2, writable: false }
}

/// The transactions `seg` of the heater step of a heater-temperature update,
/// with the compensated ambient temperature `temp_comp`: the heater range and
/// heater value are read, and then, for a profile from 0 to 9, the profile's
/// `res_heat` register is set to the computed code by read-modify-write. A
/// failed transaction ends the update; a profile above 9 has no register and
/// ends it with `NotFound`.
pub open spec fn heater_step<E>(
    seg: Seq<Transfer<E>>,
    address: u8,
    c: CalCodes,
    temp_comp: int,
    target_temp: int,
    profile_num: u8,
    r: Result<(), I2CError<E>>,
) -> bool {
    &&& seg.len() >= 1
    &&& is_read(seg[0], address, 0x02, 1)
    &&& if !succeeded(seg[0]) {
        seg.len() == 1 && r == status(seg[0].outcome)
    } else {
        &&& seg.len() >= 2
        &&& is_read(seg[1], address, 0x00, 1)
        &&& if !succeeded(seg[1]) {
            seg.len() == 2 && r == status(seg[1].outcome)
        } else if profile_num > 9 {
            seg.len() == 2 && r == Err::<(), I2CError<E>>(I2CError::NotFound)
        } else {
            rmw_done(
                seg.skip(2),
                address,
                profile_field(0x5a, profile_num),
                res_heat_of(
                    c,
                    temp_comp,
                    target_temp,
                    field_get(seg[0].read[0], res_heat_range_field()),
                    seg[1].read[0],
                ),
                r,
            )
        }
    }
}

/// The transactions `seg` of a heater-temperature update that begins with a
/// temperature measurement: the measurement, then, if it succeeded, the
/// heater step with the temperature it compensated. `temp_comp` and `t_fine`
/// are what the update leaves recorded; `t_fine0` is the fine temperature
/// recorded before it.
pub open spec fn temperature_then_heater<E>(
    seg: Seq<Transfer<E>>,
    address: u8,
    c: CalCodes,
    target_temp: int,
    profile_num: u8,
    r: Result<(), I2CError<E>>,
    temp_comp: i32,
    t_fine: i32,
    t_fine0: i32,
) -> bool {
    let k = temp_len(seg);
    &&& 1 <= seg.len()
    &&& k <= seg.len()
    &&& temperature_reads(seg.take(k), address)
    &&& if k == 3 && succeeded(seg[2]) {
        &&& t_fine == t_fine_of(c, measured_adc(seg))
        &&& temp_comp == temp_comp_of(t_fine_of(c, measured_adc(seg)))
        &&& heater_step(seg.skip(3), address, c, temp_comp as int, target_temp, profile_num, r)
    } else {
        &&& seg.len() == k
        &&& r == status(seg.last().outcome)
        &&& temp_comp == 0
        &&& t_fine == t_fine0
    }
}

/// The transactions `seg` of a heater-temperature update for `target_temp`
/// and profile `profile_num`, which ended with `r`. `temp_comp0` and
/// `t_fine0` are the temperatures recorded before the update, `temp_comp` and
/// `t_fine` those it leaves. A temperature measurement comes first exactly
/// when `temp_comp0` is zero.
pub open spec fn heater_update<E>(
    seg: Seq<Transfer<E>>,
    address: u8,
    c: CalCodes,
    temp_comp0: i32,
    t_fine0: i32,
    target_temp: int,
    profile_num: u8,
    r: Result<(), I2CError<E>>,
    temp_comp: i32,
    t_fine: i32,
) -> bool {
    if temp_comp0 != 0 {
        &&& temp_comp == temp_comp0
        &&& t_fine == t_fine0
        &&& heater_step(seg, address, c, temp_comp0 as int, target_temp, profile_num, r)
    } else {
        temperature_then_heater(seg, address, c, target_temp, profile_num, r, temp_comp, t_fine, t_fine0)
    }
}

/// The fields that `config` sets before the heater profile, with the values
/// it gives them: 16x oversampling of humidity, temperature and pressure, a
/// filter coefficient of 3, gas range 4, the gas sensor on, and the heater
/// profile to use.
pub open spec fn config_steps(profile_num: u8) -> Seq<(Field, u8)> {
    seq![
        (Field { reg: 0x72, offset: 0, bits: 3, writable: true }, 0b101u8),
        (Field { reg: 0x74, offset: 5, bits: 3, writable: true }, 0b101u8),
        (Field { reg: 0x74, offset: 2, bits: 3, writable: true }, 0b101u8),
        (Field { reg: 0x75, offset: 2, bits: 3, writable: true }, 0b010u8),
        (Field { reg: 0x2b, offset: 0, bits: 4, writable: false }, 4u8),
        (Field { reg: 0x71, offset: 4, bits: 1, writable: true }, 1u8),
        (Field { reg: 0x71, offset: 0, bits: 4, writable: true }, profile_num),
    ]
}

/// The transactions `seg` are successful read-modify-writes of the fields of
/// `steps` to their values, in order, two transactions each.
pub open spec fn rmw_all_ok<E>(seg: Seq<Transfer<E>>, address: u8, steps: Seq<(Field, u8)>) -> bool {
    &&& seg.len() == 2 * steps.len()
    &&& forall|j: int|
        0 <= j < steps.len() ==> rmw_done(
            #[trigger] seg.subrange(2 * j, 2 * j + 2),
            address,
            steps[j].0,
            steps[j].1,
            Ok(()),
        )
}

/// The transactions `seg` are read-modify-writes of the fields of `steps`
/// in order, up to and including the first that failed with `r`.
pub open spec fn rmw_failed<E>(
    seg: Seq<Transfer<E>>,
    address: u8,
    steps: Seq<(Field, u8)>,
    r: Result<(), I2CError<E>>,
) -> bool {
    &&& r is Err
    &&& exists|i: int|
        0 <= i < steps.len() && 2 * i < seg.len() && #[trigger] rmw_all_ok(seg.take(2 * i), address, steps.take(i))
            && rmw_done(seg.skip(2 * i), address, steps[i].0, steps[i].1, r)
}

/// The transactions `seg` of `config(profile_num)`, which ended with `r`:
/// the fields of `config_steps` are written in order, then the gas-wait
/// field of the profile is set to 30 ms, then its heater target to 300
/// degrees; the first failure ends it.
pub open spec fn config_done<E>(
    seg: Seq<Transfer<E>>,
    address: u8,
    c: CalCodes,
    temp_comp0: i32,
    t_fine0: i32,
    profile_num: u8,
    r: Result<(), I2CError<E>>,
    temp_comp: i32,
    t_fine: i32,
) -> bool {
    let steps = config_steps(profile_num);
    let rest = seg.skip(14);
    ||| {
        &&& rmw_failed(seg, address, steps, r)
        &&& temp_comp == temp_comp0
        &&& t_fine == t_fine0
    }
    ||| {
        &&& seg.len() >= 14
        &&& rmw_all_ok(seg.take(14), address, steps)
        &&& if profile_num > 9 {
            &&& rest.len() == 0
            &&& r == Err::<(), I2CError<E>>(I2CError::NotFound)
            &&& temp_comp == temp_comp0
            &&& t_fine == t_fine0
        } else if rest.len() >= 1 && !succeeded(rest[0]) || rest.len() >= 2 && !succeeded(rest[1]) {
            &&& rmw_done(rest, address, profile_field(0x64, profile_num), 0b00011110, r)
            &&& temp_comp == temp_comp0
            &&& t_fine == t_fine0
        } else {
            &&& rest.len() >= 2
            &&& rmw_done(rest.take(2), address, profile_field(0x64, profile_num), 0b00011110, Ok(()))
            &&& heater_update(
                rest.skip(2),
                address,
                c,
                temp_comp0,
                t_fine0,
                300,
                profile_num,
                r,
                temp_comp,
                t_fine,
            )
        }
    }
}

/// A BME680 on a bus, with its calibration constants and the results of the
/// last temperature compensation.
pub struct BME680<B: Bus> {
    pub chip: Chip<B, Bme680FieldMap>,
    pub cal_codes: CalCodes,
    /// The last compensated temperature, in hundredths of a degree Celsius;
    /// zero until a temperature has been compensated.
    pub temp_comp: i32,
    /// The fine temperature of the last compensation.
    pub t_fine: i32,
}

impl<B: Bus> BME680<B> {
    /// Compensates the raw 20-bit temperature code `temp_adc` with the
    /// calibration constants, records the fine and the compensated
    /// temperature, and returns the latter in hundredths of a degree Celsius.
    pub fn calibrate_temperature(&mut self, temp_adc: u32) -> (r: i32)
        requires
            temp_adc < 0x100000,
        ensures
            final(self).t_fine == t_fine_of(old(self).cal_codes, temp_adc as int),
            r == temp_comp_of(t_fine_of(old(self).cal_codes, temp_adc as int)),
            final(self).temp_comp == r,
            final(self).chip == old(self).chip,
            final(self).cal_codes == old(self).cal_codes,
    {
        let par_t1 = self.cal_codes.par_t1;
        let par_t2 = self.cal_codes.par_t2;
        let par_t3 = self.cal_codes.par_t3;
        let ghost c = self.cal_codes;

        let adc = temp_adc as i32;
        let t1 = par_t1 as i32;
        proof {
            lemma_shifts_i32(adc);
            lemma_shifts_i32(t1);
        }
        let var1 = ((adc >> 3) - (t1 << 1)) as i64;
        assert(var1 == temp_adc / 8 - 2 * c.par_t1);
        assert(-131072 <= var1 < 131072);

        assert(-0x1_0000_0000 <= var1 * par_t2 <= 0x1_0000_0000) by (nonlinear_arith)
            requires
                -131072 <= var1 < 131072,
                -32768 <= par_t2 < 32768,
        ;
        let prod = var1 * par_t2 as i64;
        proof {
            lemma_shifts_i64(prod);
            lemma_shifts_i64(var1);
        }
        let var2 = prod >> 11;

        let half = var1 >> 1;
        assert(0 <= half * half <= 0x1_0000_0000) by (nonlinear_arith)
            requires
                -65536 <= half <= 65536,
        ;
        let sq = half * half;
        proof {
            lemma_shifts_i64(sq);
            lemma_shifts_i64(par_t3 as i64);
        }
        let scaled = sq >> 12;
        let t3 = (par_t3 as i64) << 4;
        assert(-0x80_0000_0000 <= scaled * t3 <= 0x80_0000_0000) by (nonlinear_arith)
            requires
                0 <= scaled <= 0x10_0000,
                -0x8_0000 <= t3 <= 0x8_0000,
        ;
        let prod3 = scaled * t3;
        proof {
            lemma_shifts_i64(prod3);
        }
        let var3 = prod3 >> 14;
        assert(var2 + var3 == t_fine_of(c, temp_adc as int));

        let t_fine = (var2 + var3) as i32;
        let lin = t_fine * 5 + 128;
        proof {
            lemma_shifts_i32(lin);
        }
        let temp_comp = lin >> 8;

        self.t_fine = t_fine;
        self.temp_comp = temp_comp;
        temp_comp
    }

    /// Reads calibration byte `i`, from register `cal_regs()[i]`.
    fn read_cal_byte(&mut self, i: usize) -> (r: Result<u8, I2CError<B::Error>>)
        requires
            i < CAL_BYTES,
        ensures
            final(self).chip.i2c_addr == old(self).chip.i2c_addr,
            final(self).cal_codes == old(self).cal_codes,
            final(self).temp_comp == old(self).temp_comp,
            final(self).t_fine == old(self).t_fine,
            one_more(
                old(self).chip.transfers(),
                final(self).chip.transfers(),
                old(self).chip.i2c_addr,
                seq![cal_regs()[i as int]],
            ),
            final(self).chip.transfers().last().read.len() == 1,
            r == status_with(
                final(self).chip.transfers().last().outcome,
                final(self).chip.transfers().last().read[0],
            ),
    {
        proof {
            lemma_driver_fields();
        }
        let r = match i {
            0 => self.chip.read_field("par_t1"),
            1 => self.chip.read_reg(0xea),
            2 => self.chip.read_field("par_t2"),
            3 => self.chip.read_reg(0x8b),
            4 => self.chip.read_field("par_t3"),
            5 => self.chip.read_field("par_p1"),
            6 => self.chip.read_reg(0x8f),
            7 => self.chip.read_field("par_p2"),
            8 => self.chip.read_reg(0x91),
            9 => self.chip.read_field("par_p3"),
            10 => self.chip.read_field("par_p4"),
            11 => self.chip.read_reg(0x95),
            12 => self.chip.read_field("par_p5"),
            13 => self.chip.read_reg(0x97),
            14 => self.chip.read_field("par_p6"),
            15 => self.chip.read_field("par_p7"),
            16 => self.chip.read_field("par_p8"),
            17 => self.chip.read_reg(0x9d),
            18 => self.chip.read_field("par_p9"),
            19 => self.chip.read_reg(0x9f),
            20 => self.chip.read_field("par_p10"),
            21 => self.chip.read_field("par_h1"),
            22 => self.chip.read_reg(0xe3),
            23 => self.chip.read_field("par_h2"),
            24 => self.chip.read_reg(0xe2),
            25 => self.chip.read_field("par_h3"),
            26 => self.chip.read_field("par_h4"),
            27 => self.chip.read_field("par_h5"),
            28 => self.chip.read_field("par_h6"),
            29 => self.chip.read_field("par_h7"),
            30 => self.chip.read_field("par_g1"),
            31 => self.chip.read_field("par_g2"),
            32 => self.chip.read_reg(0xec),
            _ => self.chip.read_field("par_g3"),
        };
        proof {
            let t = self.chip.transfers().last();
            lemma_full_width_field(
                t.read[0],
                Field { reg: cal_regs()[i as int], offset: 0, bits: 8, writable: false },
                0,
            );
        }
        r
    }

    /// Reads every calibration constant from the device and stores it, reading
    /// one register per transaction in the order of `cal_regs()`. A failed
    /// transaction ends the reading and leaves the constants as they were.
    pub fn read_cal_codes(&mut self) -> (r: Result<(), I2CError<B::Error>>)
        ensures
            final(self).chip.i2c_addr == old(self).chip.i2c_addr,
            final(self).temp_comp == old(self).temp_comp,
            final(self).t_fine == old(self).t_fine,
            extends(old(self).chip.transfers(), final(self).chip.transfers()),
            cal_reads(since(old(self).chip.transfers(), final(self).chip.transfers()), old(self).chip.i2c_addr),
            r == status(final(self).chip.transfers().last().outcome),
            r is Ok ==> assembled(
                final(self).cal_codes,
                first_bytes(since(old(self).chip.transfers(), final(self).chip.transfers()), CAL_BYTES as int),
            ),
            r is Ok ==> same_misc(final(self).cal_codes, old(self).cal_codes),
            r is Err ==> final(self).cal_codes == old(self).cal_codes,
    {
        let ghost before = self.chip.transfers();
        let mut raw: Vec<u8> = Vec::new();
        let mut i: usize = 0;
        assert(before.subrange(0, before.len() as int) =~= before);
        assert(raw@ =~= first_bytes(since(before, self.chip.transfers()), 0));
        while i < CAL_BYTES
            invariant
                i <= CAL_BYTES,
                self.chip.i2c_addr == old(self).chip.i2c_addr,
                self.cal_codes == old(self).cal_codes,
                self.temp_comp == old(self).temp_comp,
                self.t_fine == old(self).t_fine,
                before == old(self).chip.transfers(),
                extends(before, self.chip.transfers()),
                self.chip.transfers().len() == before.len() + i,
                forall|j: int|
                    0 <= j < i ==> is_read(
                        #[trigger] since(before, self.chip.transfers())[j],
                        self.chip.i2c_addr,
                        cal_regs()[j],
                        1,
                    ),
                forall|j: int| 0 <= j < i ==> succeeded(#[trigger] since(before, self.chip.transfers())[j]),
                raw@ == first_bytes(since(before, self.chip.transfers()), i as int),
            decreases CAL_BYTES - i,
        {
            let ghost prev = self.chip.transfers();
            let res = self.read_cal_byte(i);
            proof {
                let after = self.chip.transfers();
                assert(after.drop_last() == prev);
                assert(after.subrange(0, before.len() as int) =~= before);
                assert forall|j: int| 0 <= j < i implies since(before, after)[j] == since(before, prev)[j] by {}
                assert(since(before, after)[i as int] == after.last());
            }
            match res {
                Ok(b) => {
                    raw.push(b);
                    proof {
                        let after = self.chip.transfers();
                        assert(raw@ =~= first_bytes(since(before, after), i + 1));
                    }
                },
                Err(e) => {
                    proof {
                        let seg = since(before, self.chip.transfers());
                        assert(seg.len() == i + 1);
                        assert(seg.last() == self.chip.transfers().last());
                    }
                    return Err(e);
                },
            }
            i = i + 1;
        }
        proof {
            let seg = since(before, self.chip.transfers());
            assert(seg.last() == self.chip.transfers().last());
        }
        self.cal_codes.assemble(raw.as_slice());
        Ok(())
    }

    /// Triggers a forced measurement, reads the raw temperature in one burst,
    /// and compensates it (see `calibrate_temperature`).
    pub fn read_temperature(&mut self) -> (r: Result<i32, I2CError<B::Error>>)
        ensures
            final(self).chip.i2c_addr == old(self).chip.i2c_addr,
            final(self).cal_codes == old(self).cal_codes,
            extends(old(self).chip.transfers(), final(self).chip.transfers()),
            temperature_reads(since(old(self).chip.transfers(), final(self).chip.transfers()), old(self).chip.i2c_addr),
            r == status_with(
                final(self).chip.transfers().last().outcome,
                temp_comp_of(
                    t_fine_of(
                        old(self).cal_codes,
                        measured_adc(since(old(self).chip.transfers(), final(self).chip.transfers())),
                    ),
                ) as i32,
            ),
            r is Ok ==> final(self).temp_comp == r->Ok_0 && final(self).t_fine == t_fine_of(
                old(self).cal_codes,
                measured_adc(since(old(self).chip.transfers(), final(self).chip.transfers())),
            ),
            r is Err ==> final(self).temp_comp == old(self).temp_comp && final(self).t_fine == old(self).t_fine,
    {
        let ghost before = self.chip.transfers();
        proof {
            lemma_driver_fields();
        }
        let written = self.chip.write_field("mode", 0b01);
        proof {
            let seg = since(before, self.chip.transfers());
            assert(self.chip.transfers().subrange(0, before.len() as int) =~= before);
            assert(seg[0] == self.chip.transfers()[before.len() as int]);
            assert(seg.last() == self.chip.transfers().last());
            if seg.len() == 2 {
                assert(seg[1] == self.chip.transfers().last());
            }
        }
        if let Err(e) = written {
            return Err(e);
        }
        let ghost middle = self.chip.transfers();
        let mut temp_out = [0u8; 3];
        let burst = self.chip.read_regs_str("temp_msb", &mut temp_out);
        proof {
            let seg = since(before, self.chip.transfers());
            assert(self.chip.transfers().drop_last() == middle);
            assert(self.chip.transfers().subrange(0, before.len() as int) =~= before);
            assert(seg[0] == middle[before.len() as int]);
            assert(seg[1] == middle[before.len() + 1int]);
            assert(seg.last() == self.chip.transfers().last());
        }
        if let Err(e) = burst {
            return Err(e);
        }
        let temp_adc = pack_temp_adc(temp_out[0], temp_out[1], temp_out[2]);
        let temp_comp = self.calibrate_temperature(temp_adc);
        Ok(temp_comp)
    }

    /// Sets the target temperature of heater profile `profile_num` to
    /// `target_temp` degrees Celsius: computes the heater-resistance code from
    /// the calibration constants, the ambient temperature and the device's
    /// heater range and value, and writes it to the profile's `res_heat`
    /// field. When no temperature has been compensated yet (`temp_comp` is
    /// zero) one temperature measurement comes first.
    pub fn set_heater_temp(&mut self, target_temp: i16, profile_num: u8) -> (r: Result<(), I2CError<B::Error>>)
        ensures
            final(self).chip.i2c_addr == old(self).chip.i2c_addr,
            final(self).cal_codes == old(self).cal_codes,
            extends(old(self).chip.transfers(), final(self).chip.transfers()),
            heater_update(
                since(old(self).chip.transfers(), final(self).chip.transfers()),
                old(self).chip.i2c_addr,
                old(self).cal_codes,
                old(self).temp_comp,
                old(self).t_fine,
                target_temp as int,
                profile_num,
                r,
                final(self).temp_comp,
                final(self).t_fine,
            ),
    {
        let ghost before = self.chip.transfers();
        let ghost old_temp = self.temp_comp;
        // --- Get calibration values ---
        let cal_codes = self.cal_codes;

        // --- Ensure temperature compensation is available ---
        if self.temp_comp == 0 {
            match self.read_temperature() {
                Ok(_) => {},
                Err(e) => {
                    proof {
                        let seg = since(before, self.chip.transfers());
                        assert(seg.take(temp_len(seg)) =~= seg);
                    }
                    return Err(e);
                },
            }
        }
        let ghost start = self.chip.transfers();
        proof {
            lemma_driver_fields();
            if old_temp == 0 {
                let seg = since(before, start);
                assert(seg.take(temp_len(seg)) =~= seg);
            } else {
                assert(start.subrange(0, before.len() as int) =~= before);
            }
        }
        let amb = self.temp_comp;

        // --- Read intermediates ---
        let range_read = self.chip.read_field("res_heat_range");
        let ghost after_range = self.chip.transfers();
        proof {
            assert(after_range.subrange(0, start.len() as int) =~= start);
            assert(since(start, after_range)[0] == after_range.last());
            lemma_since_split(before, start, after_range);
        }
        let res_heat_range = match range_read {
            Ok(v) => v,
            Err(e) => {
                return Err(e);
            },
        };
        let val_read = self.chip.read_field("res_heat_val");
        let ghost after_val = self.chip.transfers();
        proof {
            assert(after_val.subrange(0, start.len() as int) =~= start);
            assert(after_val.drop_last() == after_range);
            assert(since(start, after_val)[0] == after_range.last());
            assert(since(start, after_val)[1] == after_val.last());
            lemma_since_split(before, start, after_val);
            lemma_full_width_field(after_val.last().read[0], Field { reg: 0x00, offset: 0, bits: 8, writable: false }, 0);
        }
        let res_heat_val = match val_read {
            Ok(v) => v,
            Err(e) => {
                return Err(e);
            },
        };

        // --- Calculate heater resistance ---
        let res_heat_x = heater_resistance(&cal_codes, amb, target_temp, res_heat_range, res_heat_val);

        // Format field name and write
        let name = numbered_name("res_heat_", profile_num);
        proof {
            lemma_profile_fields(profile_num);
        }
        let res = self.chip.write_field(name.as_str(), res_heat_x);
        proof {
            let fin = self.chip.transfers();
            assert(fin.subrange(0, after_val.len() as int) =~= after_val);
            assert(fin.subrange(0, start.len() as int) =~= start);
            lemma_since_split(before, start, fin);
            lemma_since_split(start, after_val, fin);
        }
        res
    }

    /// Sets the heating time of heater profile `profile_num` to the register
    /// code `wait_time_ms`, by read-modify-write of the profile's `gas_wait`
    /// field. Profiles run from 0 to 9; any other has no such field.
    pub fn set_gas_wait(&mut self, wait_time_ms: u8, profile_num: u8) -> (r: Result<(), I2CError<B::Error>>)
        ensures
            final(self).chip.i2c_addr == old(self).chip.i2c_addr,
            final(self).cal_codes == old(self).cal_codes,
            final(self).temp_comp == old(self).temp_comp,
            final(self).t_fine == old(self).t_fine,
            profile_num <= 9 ==> {
                &&& extends(old(self).chip.transfers(), final(self).chip.transfers())
                &&& rmw_done(
                    since(old(self).chip.transfers(), final(self).chip.transfers()),
                    old(self).chip.i2c_addr,
                    profile_field(0x64, profile_num),
                    wait_time_ms,
                    r,
                )
            },
            profile_num > 9 ==> {
                &&& r == Err::<(), I2CError<B::Error>>(I2CError::NotFound)
                &&& final(self).chip.transfers() == old(self).chip.transfers()
            },
    {
        let name = numbered_name("gas_wait_", profile_num);
        proof {
            lemma_profile_fields(profile_num);
        }
        self.chip.write_field(name.as_str(), wait_time_ms)
    }

    /// A sensor on `chip`, with its calibration constants read from the
    /// device and no temperature compensated yet. When a calibration read
    /// fails, its error comes back together with the chip, whose record ends
    /// with that read.
    pub fn new(chip: Chip<B, Bme680FieldMap>) -> (r: Result<Self, (I2CError<B::Error>, Chip<B, Bme680FieldMap>)>)
        ensures
            match r {
                Ok(this) => {
                    &&& this.chip.i2c_addr == chip.i2c_addr
                    &&& this.temp_comp == 0
                    &&& this.t_fine == 0
                    &&& extends(chip.transfers(), this.chip.transfers())
                    &&& cal_complete(since(chip.transfers(), this.chip.transfers()), chip.i2c_addr)
                    &&& assembled(
                        this.cal_codes,
                        first_bytes(since(chip.transfers(), this.chip.transfers()), CAL_BYTES as int),
                    )
                    &&& same_misc(this.cal_codes, CalCodes::zeroed())
                },
                Err((e, back)) => {
                    &&& back.i2c_addr == chip.i2c_addr
                    &&& extends(chip.transfers(), back.transfers())
                    &&& cal_reads(since(chip.transfers(), back.transfers()), chip.i2c_addr)
                    &&& !succeeded(back.transfers().last())
                    &&& Err::<(), I2CError<B::Error>>(e) == status(back.transfers().last().outcome)
                },
            },
    {
        let mut this = Self { chip, cal_codes: CalCodes::default(), temp_comp: 0, t_fine: 0 };
        match this.read_cal_codes() {
            Ok(()) => Ok(this),
            Err(e) => Err((e, this.chip)),
        }
    }

    /// Looks for the sensor at its two possible addresses, 0x76 then 0x77,
    /// by reading the chip-identifier register, and points `chip` at the
    /// first address that answers with the BME680 identifier 0x61. A failed
    /// read counts as no match. When neither matches, `chip` keeps its
    /// address and the result is `DeviceNotFound`.
    pub fn probe_address(chip: &mut Chip<B, Bme680FieldMap>) -> (r: Result<u8, I2CError<B::Error>>)
        ensures
            extends(old(chip).transfers(), final(chip).transfers()),
            probe_reads(since(old(chip).transfers(), final(chip).transfers())),
            r == probe_result(since(old(chip).transfers(), final(chip).transfers())),
            r matches Ok(a) ==> final(chip).i2c_addr == a,
            r is Err ==> final(chip).i2c_addr == old(chip).i2c_addr,
    {
        let ghost before = chip.transfers();
        let saved = chip.i2c_addr;
        proof {
            lemma_driver_fields();
        }
        chip.i2c_addr = 0x76;
        let first = chip.read_field("chip_id");
        let ghost mid = chip.transfers();
        proof {
            assert(mid.subrange(0, before.len() as int) =~= before);
            assert(since(before, mid)[0] == mid.last());
            lemma_full_width_field(mid.last().read[0], Field { reg: 0xd0, offset: 0, bits: 8, writable: false }, 0);
        }
        if let Ok(id) = first {
            if id == 0x61 {
                return Ok(0x76);
            }
        }
        chip.i2c_addr = 0x77;
        let second = chip.read_field("chip_id");
        proof {
            let fin = chip.transfers();
            assert(fin.drop_last() == mid);
            assert(fin.subrange(0, before.len() as int) =~= before);
            assert(since(before, fin)[0] == mid.last());
            assert(since(before, fin)[1] == fin.last());
            lemma_full_width_field(fin.last().read[0], Field { reg: 0xd0, offset: 0, bits: 8, writable: false }, 0);
        }
        if let Ok(id) = second {
            if id == 0x61 {
                return Ok(0x77);
            }
        }
        chip.i2c_addr = saved;
        Err(I2CError::DeviceNotFound)
    }

    /// Finds the sensor at one of its two possible addresses (see
    /// `probe_address`) and then sets it up as `new` does. On failure the
    /// chip comes back with the error: `DeviceNotFound` when neither address
    /// gave the identifier, with nothing read after the probe, or the error of
    /// the calibration read that failed.
    pub fn probe(chip: Chip<B, Bme680FieldMap>) -> (r: Result<Self, (I2CError<B::Error>, Chip<B, Bme680FieldMap>)>)
        ensures
            match r {
                Ok(this) => {
                    let seg = since(chip.transfers(), this.chip.transfers());
                    let k = if id_found(seg[0]) { 1int } else { 2int };
                    &&& extends(chip.transfers(), this.chip.transfers())
                    &&& k <= seg.len()
                    &&& probe_reads(seg.take(k))
                    &&& probe_result(seg.take(k)) == Ok::<u8, I2CError<B::Error>>(this.chip.i2c_addr)
                    &&& cal_complete(seg.skip(k), this.chip.i2c_addr)
                    &&& assembled(this.cal_codes, first_bytes(seg.skip(k), CAL_BYTES as int))
                    &&& this.temp_comp == 0
                    &&& this.t_fine == 0
                },
                Err((e, back)) => {
                    let seg = since(chip.transfers(), back.transfers());
                    let k = if id_found(seg[0]) { 1int } else { 2int };
                    &&& extends(chip.transfers(), back.transfers())
                    &&& k <= seg.len()
                    &&& probe_reads(seg.take(k))
                    &&& if probe_result(seg.take(k)) is Err {
                        &&& e is DeviceNotFound
                        &&& seg.len() == k
                        &&& back.i2c_addr == chip.i2c_addr
                    } else {
                        &&& probe_result(seg.take(k)) == Ok::<u8, I2CError<B::Error>>(back.i2c_addr)
                        &&& cal_reads(seg.skip(k), back.i2c_addr)
                        &&& !succeeded(back.transfers().last())
                        &&& Err::<(), I2CError<B::Error>>(e) == status(back.transfers().last().outcome)
                    }
                },
            },
    {
        let ghost before = chip.transfers();
        let mut chip = chip;
        if let Err(e) = Self::probe_address(&mut chip) {
            proof {
                let seg = since(before, chip.transfers());
                let k = if id_found(seg[0]) { 1int } else { 2int };
                assert(seg.take(k) =~= seg);
            }
            return Err((e, chip));
        }
        let ghost mid = chip.transfers();
        let r = Self::new(chip);
        proof {
            let seg0 = since(before, mid);
            let k = if id_found(seg0[0]) { 1int } else { 2int };
            assert(seg0.take(k) =~= seg0);
            if r is Ok {
                lemma_since_split(before, mid, r->Ok_0.chip.transfers());
                let seg = since(before, r->Ok_0.chip.transfers());
                assert(seg[0] == seg0[0]);
            } else {
                let back = r->Err_0.1;
                lemma_since_split(before, mid, back.transfers());
                let seg = since(before, back.transfers());
                assert(seg[0] == seg0[0]);
                assert(back.transfers().last() == since(mid, back.transfers()).last());
            }
        }
        r
    }

    /// Writes field `i` of `config_steps(profile_num)` to its value.
    fn config_step(&mut self, i: usize, profile_num: u8) -> (r: Result<(), I2CError<B::Error>>)
        requires
            i < 7,
        ensures
            final(self).chip.i2c_addr == old(self).chip.i2c_addr,
            final(self).cal_codes == old(self).cal_codes,
            final(self).temp_comp == old(self).temp_comp,
            final(self).t_fine == old(self).t_fine,
            extends(old(self).chip.transfers(), final(self).chip.transfers()),
            rmw_done(
                since(old(self).chip.transfers(), final(self).chip.transfers()),
                old(self).chip.i2c_addr,
                config_steps(profile_num)[i as int].0,
                config_steps(profile_num)[i as int].1,
                r,
            ),
    {
        proof {
            lemma_driver_fields();
        }
        match i {
            // 16x oversampling
            0 => self.chip.write_field("osrs_h", 0b101),
            1 => self.chip.write_field("osrs_t", 0b101),
            2 => self.chip.write_field("osrs_p", 0b101),
            // Filter coefficient of 3
            3 => self.chip.write_field("filter", 0b010),
            // Gas range, gas sensor on, heater profile
            4 => self.chip.write_field("gas_range_r", 4),
            5 => self.chip.write_field("run_gas", 0b1),
            _ => self.chip.write_field("nb_conv", profile_num),
        }
    }

    /// Configures oversampling, filtering and the gas sensor, selects heater
    /// profile `profile_num`, and sets that profile to heat for 30 ms to 300
    /// degrees Celsius (see `config_done`).
    pub fn config(&mut self, profile_num: u8) -> (r: Result<(), I2CError<B::Error>>)
        ensures
            final(self).chip.i2c_addr == old(self).chip.i2c_addr,
            final(self).cal_codes == old(self).cal_codes,
            extends(old(self).chip.transfers(), final(self).chip.transfers()),
            config_done(
                since(old(self).chip.transfers(), final(self).chip.transfers()),
                old(self).chip.i2c_addr,
                old(self).cal_codes,
                old(self).temp_comp,
                old(self).t_fine,
                profile_num,
                r,
                final(self).temp_comp,
                final(self).t_fine,
            ),
    {
        let ghost before = self.chip.transfers();
        let ghost steps = config_steps(profile_num);
        let mut i: usize = 0;
        assert(before.subrange(0, before.len() as int) =~= before);
        assert(since(before, before) =~= Seq::<Transfer<B::Error>>::empty());
        assert(steps.take(0) =~= Seq::<(Field, u8)>::empty());
        while i < 7
            invariant
                i <= 7,
                steps == config_steps(profile_num),
                before == old(self).chip.transfers(),
                self.chip.i2c_addr == old(self).chip.i2c_addr,
                self.cal_codes == old(self).cal_codes,
                self.temp_comp == old(self).temp_comp,
                self.t_fine == old(self).t_fine,
                extends(before, self.chip.transfers()),
                rmw_all_ok(since(before, self.chip.transfers()), self.chip.i2c_addr, steps.take(i as int)),
            decreases 7 - i,
        {
            let ghost prev = self.chip.transfers();
            let res = self.config_step(i, profile_num);
            proof {
                let cur = self.chip.transfers();
                lemma_since_split(before, prev, cur);
                let seg = since(before, cur);
                assert(seg.take(2 * i) == since(before, prev));
                assert(seg.skip(2 * i) == since(prev, cur));
                if res is Err {
                    assert(rmw_all_ok(seg.take(2 * i), self.chip.i2c_addr, steps.take(i as int)));
                    assert(rmw_failed(seg, self.chip.i2c_addr, steps, res));
                } else {
                    let next = steps.take(i + 1);
                    assert forall|j: int| 0 <= j < next.len() implies rmw_done(
                        #[trigger] seg.subrange(2 * j, 2 * j + 2),
                        self.chip.i2c_addr,
                        next[j].0,
                        next[j].1,
                        Ok(()),
                    ) by {
                        if j < i {
                            assert(seg.subrange(2 * j, 2 * j + 2) =~= since(before, prev).subrange(2 * j, 2 * j + 2));
                        } else {
                            assert(seg.subrange(2 * j, 2 * j + 2) =~= seg.skip(2 * i));
                        }
                    }
                }
            }
            if let Err(e) = res {
                return Err(e);
            }
            i = i + 1;
        }
        let ghost mid0 = self.chip.transfers();
        proof {
            assert(steps.take(7) =~= steps);
        }

        // Set time between beginning of the heat phase and start of resistance conversion
        let gw = self.set_gas_wait(0b00011110, profile_num);
        let ghost mid1 = self.chip.transfers();
        proof {
            if profile_num > 9 {
                assert(mid1.subrange(0, mid0.len() as int) =~= mid0);
            }
            lemma_since_split(before, mid0, mid1);
            let rest = since(before, mid1).skip(14);
            assert(since(before, mid1).take(14) == since(before, mid0));
            assert(rest == since(mid0, mid1));
            if profile_num <= 9 && gw is Err {
                assert(rest.len() >= 1 && !succeeded(rest[0]) || rest.len() >= 2 && !succeeded(rest[1]));
            }
        }
        if let Err(e) = gw {
            return Err(e);
        }

        // Set heater temperature
        let res = self.set_heater_temp(300, profile_num);
        proof {
            let fin = self.chip.transfers();
            lemma_since_split(mid0, mid1, fin);
            lemma_since_split(before, mid0, fin);
            let seg = since(before, fin);
            assert(seg.take(14) == since(before, mid0));
            assert(seg.skip(14) == since(mid0, fin));
            assert(seg.skip(14).take(2) == since(mid0, mid1));
            assert(seg.skip(14).skip(2) == since(mid1, fin));
        }
        res
    }
}

} // verus!
