//! Field descriptors, field maps, and the bit arithmetic of a field within
//! its register.
use vstd::arithmetic::power2::{lemma2_to64, lemma_pow2_strictly_increases, pow2};
use vstd::bits::lemma_u16_shl_is_mul;
use vstd::prelude::*;

verus! {

/// A named bit range within one byte-wide register.
#[derive(Clone, Copy, Debug, PartialEq, Eq, Structural)]
pub struct Field {
    pub reg: u8,
    pub offset: u8,
    pub bits: u8,
    pub writable: bool,
}

impl Field {
    /// The field is at least one bit wide and lies inside its register.
    pub open spec fn wf(self) -> bool {
        1 <= self.bits && self.offset + self.bits <= 8
    }
}

/// A lookup from symbolic field names to descriptors, by exact match.
pub trait FieldMapProvider {
    /// The descriptor for `name`, if the map has one.
    spec fn field_named(name: Seq<char>) -> Option<Field>;

    fn get_field(name: &str) -> (r: Option<Field>)
        ensures
            r == Self::field_named(name@),
            r matches Some(f) ==> f.wf(),
    ;
}

/// The map of a chip that is addressed by register number only.
pub struct NoFieldMap;

impl FieldMapProvider for NoFieldMap {
    open spec fn field_named(name: Seq<char>) -> Option<Field> {
        None
    }

    fn get_field(name: &str) -> (r: Option<Field>) {
        None
    }
}

/// `bits` ones, starting at bit `offset`.
pub open spec fn field_mask(offset: u8, bits: u8) -> u8 {
    (0xffu8 >> ((8 - bits) as u8)) << offset
}

/// The `bits`-wide value at bit `offset` of `reg`.
pub open spec fn get_bits(reg: u8, offset: u8, bits: u8) -> u8 {
    (reg & field_mask(offset, bits)) >> offset
}

/// `reg` with its `bits` bits at `offset` replaced by the low bits of `v`.
pub open spec fn set_bits(reg: u8, offset: u8, bits: u8, v: u8) -> u8 {
    (reg & !field_mask(offset, bits)) | ((v << offset) & field_mask(offset, bits))
}

/// The value of field `f` within the register byte `reg`.
pub open spec fn field_get(reg: u8, f: Field) -> u8 {
    get_bits(reg, f.offset, f.bits)
}

/// The register byte `reg` with field `f` replaced by the low bits of `v`.
pub open spec fn field_set(reg: u8, f: Field, v: u8) -> u8 {
    set_bits(reg, f.offset, f.bits, v)
}

/// Bit `i` of `x`.
pub open spec fn bit(x: u8, i: u8) -> bool {
    (x >> i) & 1 == 1
}

/// The mask of field `f`.
pub fn mask_of(f: Field) -> (r: u8)
    requires
        f.wf(),
    ensures
        r == field_mask(f.offset, f.bits),
{
    (0xffu8 >> (8 - f.bits)) << f.offset
}

/// The value of field `f` within the register byte `reg`.
pub fn extract_field(reg: u8, f: Field) -> (r: u8)
    requires
        f.wf(),
    ensures
        r == field_get(reg, f),
{
    let mask = mask_of(f);
    (reg & mask) >> f.offset
}

/// The register byte `reg` with field `f` replaced by the low bits of `v`.
pub fn insert_field(reg: u8, f: Field, v: u8) -> (r: u8)
    requires
        f.wf(),
    ensures
        r == field_set(reg, f, v),
{
    let mask = mask_of(f);
    (reg & !mask) | ((v << f.offset) & mask)
}

/// Writing a field leaves every bit of its register outside the field as it was.
pub proof fn lemma_field_set_isolated(reg: u8, f: Field, v: u8, i: u8)
    requires
        f.wf(),
        i < 8,
        i < f.offset || f.offset + f.bits <= i,
    ensures
        bit(field_set(reg, f, v), i) == bit(reg, i),
{
    let off = f.offset;
    let bits = f.bits;
    assert(bit(set_bits(reg, off, bits, v), i) == bit(reg, i)) by (bit_vector)
        requires
            1 <= bits,
            off + bits <= 8,
            i < 8,
            i < off || off + bits <= i,
    ;
}

/// A value that fits in a field reads back unchanged after it is written.
pub proof fn lemma_field_round_trip(reg: u8, f: Field, v: u8)
    requires
        f.wf(),
        (v as nat) < pow2(f.bits as nat),
    ensures
        field_get(field_set(reg, f, v), f) == v,
{
    let off = f.offset;
    let bits = f.bits;
    lemma2_to64();
    lemma_pow2_strictly_increases(bits as nat, 9);
    lemma_u16_shl_is_mul(1, bits as u16);
    let limit: u16 = 1u16 << (bits as u16);
    assert(get_bits(set_bits(reg, off, bits, v), off, bits) == v) by (bit_vector)
        requires
            1 <= bits,
            off + bits <= 8,
            (v as u16) < limit,
            limit == 1u16 << (bits as u16),
    ;
}

/// A field that spans its whole register is written and read as the register byte.
pub proof fn lemma_full_width_field(reg: u8, f: Field, v: u8)
    requires
        f.offset == 0,
        f.bits == 8,
    ensures
        field_set(reg, f, v) == v,
        field_get(reg, f) == reg,
{
    assert(set_bits(reg, 0, 8, v) == v && get_bits(reg, 0, 8) == reg) by (bit_vector);
}

} // verus!
