//! Register and field access to one device on a byte-oriented bus.
use core::marker::PhantomData;
use vstd::prelude::*;

use crate::chip_map::{
    extract_field, field_get, field_set, insert_field, lemma_full_width_field, Field, FieldMapProvider, NoFieldMap,
};

verus! {

/// A bus that carries addressed write-then-read transactions.
pub trait Bus {
    type Error;

    /// Writes `bytes` to the device at `address`, then reads enough bytes to
    /// fill `buffer`, in one transaction. The buffer keeps its length, as
    /// any `&mut [u8]` does.
    fn write_read(&mut self, address: u8, bytes: &[u8], buffer: &mut [u8]) -> (r: Result<(), Self::Error>)
        ensures
            final(buffer)@.len() == old(buffer)@.len(),
    ;
}

/// What can go wrong when talking to a chip.
#[derive(Debug)]
pub enum I2CError<E> {
    /// The name has no entry in the chip's field map.
    NotFound,
    /// The bus transaction failed.
    I2CError(E),
    /// No candidate address answered with the expected identifier.
    DeviceNotFound,
}

/// One bus transaction issued by a chip: where it went, what was written,
/// what the read buffer held afterwards, and how it ended.
pub struct Transfer<E> {
    pub address: u8,
    pub bytes: Seq<u8>,
    pub read: Seq<u8>,
    pub outcome: Result<(), E>,
}

/// The result of a transaction that returns nothing.
pub open spec fn status<E>(outcome: Result<(), E>) -> Result<(), I2CError<E>> {
    match outcome {
        Ok(()) => Ok(()),
        Err(e) => Err(I2CError::I2CError(e)),
    }
}

/// The result of a transaction that returns `value` when it succeeds.
pub open spec fn status_with<E, T>(outcome: Result<(), E>, value: T) -> Result<T, I2CError<E>> {
    match outcome {
        Ok(()) => Ok(value),
        Err(e) => Err(I2CError::I2CError(e)),
    }
}

/// `t` went to `address`, wrote the register number `reg`, and read `n` bytes.
pub open spec fn is_read<E>(t: Transfer<E>, address: u8, reg: u8, n: nat) -> bool {
    &&& t.address == address
    &&& t.bytes == seq![reg]
    &&& t.read.len() == n
}

/// `t` went to `address` and wrote `value` to register `reg`, with a
/// one-byte dummy read buffer.
pub open spec fn is_write<E>(t: Transfer<E>, address: u8, reg: u8, value: u8) -> bool {
    &&& t.address == address
    &&& t.bytes == seq![reg, value]
    &&& t.read.len() == 1
}

/// `t` succeeded.
pub open spec fn succeeded<E>(t: Transfer<E>) -> bool {
    t.outcome is Ok
}

/// `after` is `before` with more transactions appended.
pub open spec fn extends<E>(before: Seq<Transfer<E>>, after: Seq<Transfer<E>>) -> bool {
    &&& before.len() <= after.len()
    &&& after.subrange(0, before.len() as int) == before
}

/// The transactions of `after` that came after those of `before`.
pub open spec fn since<E>(before: Seq<Transfer<E>>, after: Seq<Transfer<E>>) -> Seq<Transfer<E>> {
    after.subrange(before.len() as int, after.len() as int)
}

/// `after` is `before` followed by one transaction that wrote `bytes` to `address`.
pub open spec fn one_more<E>(
    before: Seq<Transfer<E>>,
    after: Seq<Transfer<E>>,
    address: u8,
    bytes: Seq<u8>,
) -> bool {
    &&& after.len() == before.len() + 1
    &&& after.drop_last() == before
    &&& after.last().address == address
    &&& after.last().bytes == bytes
}

/// The transactions `seg` of a read-modify-write of field `f` to `v` on the
/// device at `address`, which ended with `r`: a one-byte read of the field's
/// register, then, if that read succeeded, a write of the register byte with
/// the field replaced.
pub open spec fn rmw_done<E>(
    seg: Seq<Transfer<E>>,
    address: u8,
    f: Field,
    v: u8,
    r: Result<(), I2CError<E>>,
) -> bool {
    &&& seg.len() >= 1
    &&& is_read(seg[0], address, f.reg, 1)
    &&& if !succeeded(seg[0]) {
        seg.len() == 1 && r == status(seg[0].outcome)
    } else {
        &&& seg.len() == 2
        &&& is_write(seg[1], address, f.reg, field_set(seg[0].read[0], f, v))
        &&& r == status(seg[1].outcome)
    }
}

/// One device on a bus, at a fixed 7-bit address, with the field map `M`.
pub struct Chip<B: Bus, M = NoFieldMap> {
    pub i2c: B,
    pub i2c_addr: u8,
    pub _map: PhantomData<M>,
    pub history: Ghost<Seq<Transfer<B::Error>>>,
}

impl<B: Bus> Chip<B, NoFieldMap> {
    /// A chip addressed by register number only.
    pub fn new_generic(i2c: B, addr: u8) -> (r: Self)
        ensures
            r.i2c == i2c,
            r.i2c_addr == addr,
            r.transfers() == Seq::<Transfer<B::Error>>::empty(),
    {
        Self::new(i2c, addr)
    }
}

impl<B: Bus, M> Chip<B, M> {
    /// Every transaction this chip has issued, oldest first.
    pub open spec fn transfers(&self) -> Seq<Transfer<B::Error>> {
        self.history@
    }

    /// A chip at `addr` on `i2c` that has issued no transaction yet.
    pub fn new(i2c: B, addr: u8) -> (r: Self)
        ensures
            r.i2c == i2c,
            r.i2c_addr == addr,
            r.transfers() == Seq::<Transfer<B::Error>>::empty(),
    {
        Chip { i2c, i2c_addr: addr, _map: PhantomData, history: Ghost(Seq::empty()) }
    }

    /// Reads `reg_values.len()` consecutive registers starting at `reg`, in one transaction.
    pub fn read_regs(&mut self, reg: u8, reg_values: &mut [u8]) -> (r: Result<(), I2CError<B::Error>>)
        ensures
            final(self).i2c_addr == old(self).i2c_addr,
            one_more(old(self).transfers(), final(self).transfers(), old(self).i2c_addr, seq![reg]),
            final(self).transfers().last().read == final(reg_values)@,
            final(self).transfers().last().read.len() == old(reg_values)@.len(),
            r == status(final(self).transfers().last().outcome),
    {
        let wr: [u8; 1] = [reg];
        let res = self.i2c.write_read(self.i2c_addr, &wr, reg_values);
        proof {
            assert(wr@ =~= seq![reg]);
            let t = Transfer { address: self.i2c_addr, bytes: wr@, read: reg_values@, outcome: res };
            self.history@ = self.history@.push(t);
            assert(self.history@.drop_last() =~= old(self).history@);
        }
        match res {
            Ok(()) => Ok(()),
            Err(e) => Err(I2CError::I2CError(e)),
        }
    }

    /// Writes `reg_val` to register `reg`, in one transaction.
    pub fn write_reg(&mut self, reg: u8, reg_val: u8) -> (r: Result<(), I2CError<B::Error>>)
        ensures
            final(self).i2c_addr == old(self).i2c_addr,
            one_more(old(self).transfers(), final(self).transfers(), old(self).i2c_addr, seq![reg, reg_val]),
            final(self).transfers().last().read.len() == 1,
            r == status(final(self).transfers().last().outcome),
    {
        let mut buf: [u8; 1] = [0u8];
        let wr: [u8; 2] = [reg, reg_val];
        let res = self.i2c.write_read(self.i2c_addr, &wr, &mut buf);
        proof {
            assert(wr@ =~= seq![reg, reg_val]);
            let t = Transfer { address: self.i2c_addr, bytes: wr@, read: buf@, outcome: res };
            self.history@ = self.history@.push(t);
            assert(self.history@.drop_last() =~= old(self).history@);
        }
        match res {
            Ok(()) => Ok(()),
            Err(e) => Err(I2CError::I2CError(e)),
        }
    }

    /// Reads register `reg`, in one transaction.
    pub fn read_reg(&mut self, reg: u8) -> (r: Result<u8, I2CError<B::Error>>)
        ensures
            final(self).i2c_addr == old(self).i2c_addr,
            one_more(old(self).transfers(), final(self).transfers(), old(self).i2c_addr, seq![reg]),
            final(self).transfers().last().read.len() == 1,
            r == status_with(
                final(self).transfers().last().outcome,
                final(self).transfers().last().read[0],
            ),
    {
        let mut reg_vals: [u8; 1] = [0u8];
        self.read_regs(reg, &mut reg_vals)?;
        Ok(reg_vals[0])
    }
}

impl<B: Bus, M: FieldMapProvider> Chip<B, M> {
    /// Reads `reg_values.len()` consecutive registers starting at the register
    /// of the field named `reg_str`, in one transaction.
    pub fn read_regs_str(&mut self, reg_str: &str, reg_values: &mut [u8]) -> (r: Result<(), I2CError<B::Error>>)
        ensures
            final(self).i2c_addr == old(self).i2c_addr,
            match M::field_named(reg_str@) {
                None => {
                    &&& r == Err::<(), I2CError<B::Error>>(I2CError::NotFound)
                    &&& final(self).transfers() == old(self).transfers()
                    &&& final(reg_values)@ == old(reg_values)@
                },
                Some(f) => {
                    &&& one_more(old(self).transfers(), final(self).transfers(), old(self).i2c_addr, seq![f.reg])
                    &&& final(self).transfers().last().read == final(reg_values)@
                    &&& final(self).transfers().last().read.len() == old(reg_values)@.len()
                    &&& r == status(final(self).transfers().last().outcome)
                },
            },
    {
        let reg_dets = match M::get_field(reg_str) {
            Some(f) => f,
            None => return Err(I2CError::NotFound),
        };
        self.read_regs(reg_dets.reg, reg_values)
    }

    /// Reads the whole register that holds the field named `reg_str`.
    pub fn read_reg_str(&mut self, reg_str: &str) -> (r: Result<u8, I2CError<B::Error>>)
        ensures
            final(self).i2c_addr == old(self).i2c_addr,
            match M::field_named(reg_str@) {
                None => {
                    &&& r == Err::<u8, I2CError<B::Error>>(I2CError::NotFound)
                    &&& final(self).transfers() == old(self).transfers()
                },
                Some(f) => {
                    &&& one_more(old(self).transfers(), final(self).transfers(), old(self).i2c_addr, seq![f.reg])
                    &&& final(self).transfers().last().read.len() == 1
                    &&& r == status_with(
                        final(self).transfers().last().outcome,
                        final(self).transfers().last().read[0],
                    )
                },
            },
    {
        let reg_dets = match M::get_field(reg_str) {
            Some(f) => f,
            None => return Err(I2CError::NotFound),
        };
        self.read_reg(reg_dets.reg)
    }

    /// Writes `reg_val` to the whole register that holds the field named `reg_str`.
    pub fn write_reg_str(&mut self, reg_str: &str, reg_val: u8) -> (r: Result<(), I2CError<B::Error>>)
        ensures
            final(self).i2c_addr == old(self).i2c_addr,
            match M::field_named(reg_str@) {
                None => {
                    &&& r == Err::<(), I2CError<B::Error>>(I2CError::NotFound)
                    &&& final(self).transfers() == old(self).transfers()
                },
                Some(f) => {
                    &&& one_more(old(self).transfers(), final(self).transfers(), old(self).i2c_addr, seq![f.reg, reg_val])
                    &&& final(self).transfers().last().read.len() == 1
                    &&& r == status(final(self).transfers().last().outcome)
                },
            },
    {
        let reg_dets = match M::get_field(reg_str) {
            Some(f) => f,
            None => return Err(I2CError::NotFound),
        };
        self.write_reg(reg_dets.reg, reg_val)
    }

    /// Reads the field named `field`: one read of its register, then the field's bits.
    pub fn read_field(&mut self, field: &str) -> (r: Result<u8, I2CError<B::Error>>)
        ensures
            final(self).i2c_addr == old(self).i2c_addr,
            match M::field_named(field@) {
                None => {
                    &&& r == Err::<u8, I2CError<B::Error>>(I2CError::NotFound)
                    &&& final(self).transfers() == old(self).transfers()
                },
                Some(f) => {
                    &&& one_more(old(self).transfers(), final(self).transfers(), old(self).i2c_addr, seq![f.reg])
                    &&& final(self).transfers().last().read.len() == 1
                    &&& r == status_with(
                        final(self).transfers().last().outcome,
                        field_get(final(self).transfers().last().read[0], f),
                    )
                },
            },
    {
        let field_dets = match M::get_field(field) {
            Some(f) => f,
            None => return Err(I2CError::NotFound),
        };
        let reg_val = self.read_reg(field_dets.reg)?;
        Ok(extract_field(reg_val, field_dets))
    }

    /// Writes `field_val` into the field named `field` by read-modify-write:
    /// the register is read, the field's bits are replaced, and the byte is
    /// written back. The bits outside the field keep what was read.
    pub fn write_field(&mut self, field: &str, field_val: u8) -> (r: Result<(), I2CError<B::Error>>)
        ensures
            final(self).i2c_addr == old(self).i2c_addr,
            match M::field_named(field@) {
                None => {
                    &&& r == Err::<(), I2CError<B::Error>>(I2CError::NotFound)
                    &&& final(self).transfers() == old(self).transfers()
                },
                Some(f) => {
                    &&& extends(old(self).transfers(), final(self).transfers())
                    &&& rmw_done(since(old(self).transfers(), final(self).transfers()), old(self).i2c_addr, f, field_val, r)
                },
            },
    {
        let field_dets = match M::get_field(field) {
            Some(f) => f,
            None => return Err(I2CError::NotFound),
        };
        let ghost before = self.transfers();
        let curr_field_val = match self.read_reg(field_dets.reg) {
            Ok(v) => v,
            Err(e) => {
                assert(self.transfers().subrange(0, before.len() as int) =~= before);
                assert(since(before, self.transfers())[0] == self.transfers().last());
                return Err(e);
            },
        };
        let ghost middle = self.transfers();
        let new_val = insert_field(curr_field_val, field_dets, field_val);
        let res = self.write_reg(field_dets.reg, new_val);
        proof {
            let fin = self.transfers();
            assert(fin.drop_last() == middle);
            assert(fin.subrange(0, before.len() as int) =~= before);
            assert(since(before, fin)[0] == middle.last());
            assert(since(before, fin)[1] == fin.last());
        }
        res
    }
}

/// Splitting a run of transactions at an intermediate point.
pub proof fn lemma_since_split<E>(a: Seq<Transfer<E>>, b: Seq<Transfer<E>>, c: Seq<Transfer<E>>)
    requires
        extends(a, b),
        extends(b, c),
    ensures
        extends(a, c),
        since(a, c).skip(b.len() - a.len()) == since(b, c),
        since(a, c).take(b.len() - a.len()) == since(a, b),
{
    assert(c.subrange(0, a.len() as int) =~= c.subrange(0, b.len() as int).subrange(0, a.len() as int));
    assert(since(a, c).skip(b.len() - a.len()) =~= since(b, c));
    assert(since(a, c).take(b.len() - a.len()) =~= since(a, b)) by {
        assert forall|i: int| 0 <= i < b.len() - a.len() implies #[trigger] since(a, c)[i] == since(a, b)[i] by {
            assert(c[a.len() + i] == c.subrange(0, b.len() as int)[a.len() + i]);
        }
    }
}

/// A read-modify-write of a field that spans its whole register writes the
/// value itself, the same transaction that `write_reg` issues, whatever the
/// register held before.
pub proof fn lemma_full_width_write<E>(
    seg: Seq<Transfer<E>>,
    address: u8,
    f: Field,
    v: u8,
    r: Result<(), I2CError<E>>,
)
    requires
        rmw_done(seg, address, f, v, r),
        f.offset == 0,
        f.bits == 8,
        succeeded(seg[0]),
    ensures
        is_write(seg[1], address, f.reg, v),
        r == status(seg[1].outcome),
{
    lemma_full_width_field(seg[0].read[0], f, v);
}

} // verus!
