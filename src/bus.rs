//! The bus capability the devices are built on, and the register transfers
//! shared by both of them.

use vstd::prelude::*;

verus! {

/// One transaction on the bus, as a `RegisterPort` records it.
pub enum Transfer {
    /// `bytes` sent to the device at `address`.
    Write { address: u8, bytes: Seq<u8>, ok: bool },
    /// `bytes` sent to the device at `address`, then `read` received from it.
    WriteRead { address: u8, bytes: Seq<u8>, read: Seq<u8>, ok: bool },
}

impl Transfer {
    /// Whether the bus reported success for this transaction.
    pub open spec fn ok(self) -> bool {
        match self {
            Transfer::Write { ok, .. } => ok,
            Transfer::WriteRead { ok, .. } => ok,
        }
    }

    /// The bytes received, empty for a plain write.
    pub open spec fn received(self) -> Seq<u8> {
        match self {
            Transfer::Write { .. } => Seq::empty(),
            Transfer::WriteRead { read, .. } => read,
        }
    }
}

/// `t` selects `register` on the device at `address` and reads `len` bytes
/// from there.
pub open spec fn reads(t: Transfer, address: u8, register: u8, len: nat) -> bool {
    t matches Transfer::WriteRead { address: a, bytes, read, .. } && a == address && bytes
        == seq![register] && read.len() == len
}

/// The transaction that writes `value` into `register` of the device at
/// `address`.
pub open spec fn writes(address: u8, register: u8, value: u8, ok: bool) -> Transfer {
    Transfer::Write { address, bytes: seq![register, value], ok }
}

/// The transactions that `after` holds beyond its prefix `before`.
pub open spec fn appended(before: Seq<Transfer>, after: Seq<Transfer>) -> Seq<Transfer> {
    after.subrange(before.len() as int, after.len() as int)
}

/// A synchronous, addressable two-wire bus, implemented by the caller.
///
/// What the device answers, and whether the bus succeeds, is left open:
/// the devices record each call and its outcome, and their contracts speak
/// of that record.
pub trait I2cBus {
    /// The bus's own failure, handed on unchanged by the devices.
    type Error;

    /// Sends `bytes` to the device at `address`.
    fn write(&mut self, address: u8, bytes: &[u8]) -> Result<(), Self::Error>;

    /// Sends `bytes` to the device at `address`, then fills `buffer` from it.
    fn write_read(&mut self, address: u8, bytes: &[u8], buffer: &mut [u8]) -> Result<
        (),
        Self::Error,
    >;
}

/// One device's registers, reached over a bus at a fixed address, with the
/// record of every transaction made through it.
pub struct RegisterPort<I2C> {
    i2c: I2C,
    address: u8,
    transfers: Ghost<Seq<Transfer>>,
}

impl<I2C: I2cBus> RegisterPort<I2C> {
    /// The transactions made through the port so far, oldest first.
    pub closed spec fn log(&self) -> Seq<Transfer> {
        self.transfers@
    }

    /// The bus address of the device.
    pub closed spec fn addr(&self) -> u8 {
        self.address
    }

    /// The device at `address` on `i2c`, with nothing recorded yet.
    pub fn new(i2c: I2C, address: u8) -> (r: Self)
        ensures
            r.log() == Seq::<Transfer>::empty(),
            r.addr() == address,
    {
        RegisterPort { i2c, address, transfers: Ghost(Seq::empty()) }
    }

    /// Reads `N` consecutive bytes, starting at `register`.
    pub fn read_registers<const N: usize>(&mut self, register: u8) -> (r: Result<
        [u8; N],
        I2C::Error,
    >)
        ensures
            final(self).addr() == old(self).addr(),
            old(self).log().is_prefix_of(final(self).log()),
            ({
                let t = appended(old(self).log(), final(self).log());
                &&& t.len() == 1
                &&& reads(t[0], old(self).addr(), register, N as nat)
                &&& t[0].ok() == r is Ok
                &&& r is Ok ==> r->Ok_0@ == t[0].received()
            }),
    {
        let mut data = [0u8; N];
        let cmd = [register];
        let r = self.i2c.write_read(self.address, &cmd, &mut data);
        self.transfers = Ghost(
            self.transfers@.push(
                Transfer::WriteRead {
                    address: self.address,
                    bytes: cmd@,
                    read: data@,
                    ok: r is Ok,
                },
            ),
        );
        proof {
            assert(cmd@ =~= seq![register]);
            assert(appended(old(self).log(), self.log()) =~= seq![self.log().last()]);
        }
        match r {
            Ok(()) => Ok(data),
            Err(e) => Err(e),
        }
    }

    /// Reads one byte from `register`.
    pub fn read_register(&mut self, register: u8) -> (r: Result<u8, I2C::Error>)
        ensures
            final(self).addr() == old(self).addr(),
            old(self).log().is_prefix_of(final(self).log()),
            ({
                let t = appended(old(self).log(), final(self).log());
                &&& t.len() == 1
                &&& reads(t[0], old(self).addr(), register, 1)
                &&& t[0].ok() == r is Ok
                &&& r is Ok ==> r->Ok_0 == t[0].received()[0]
            }),
    {
        match self.read_registers::<1>(register) {
            Ok(data) => Ok(data[0]),
            Err(e) => Err(e),
        }
    }

    /// Writes `value` into `register`.
    pub fn write_register(&mut self, register: u8, value: u8) -> (r: Result<(), I2C::Error>)
        ensures
            final(self).addr() == old(self).addr(),
            final(self).log() == old(self).log().push(
                writes(old(self).addr(), register, value, r is Ok),
            ),
    {
        let cmd = [register, value];
        let r = self.i2c.write(self.address, &cmd);
        self.transfers = Ghost(
            self.transfers@.push(Transfer::Write { address: self.address, bytes: cmd@, ok: r is Ok }),
        );
        proof {
            assert(cmd@ =~= seq![register, value]);
        }
        r
    }

    /// Read-modify-write of `register`: the bits of `keep` stay as read, the
    /// bits of `set` are added, and the byte is written back. A failed read
    /// ends the update before the write.
    pub fn update_register(&mut self, register: u8, keep: u8, set: u8) -> (r: Result<
        (),
        I2C::Error,
    >)
        ensures
            final(self).addr() == old(self).addr(),
            old(self).log().is_prefix_of(final(self).log()),
            ({
                let t = appended(old(self).log(), final(self).log());
                &&& t.len() >= 1
                &&& reads(t[0], old(self).addr(), register, 1)
                &&& if t[0].ok() {
                    &&& t.len() == 2
                    &&& t[1] == writes(
                        old(self).addr(),
                        register,
                        (t[0].received()[0] & keep) | set,
                        r is Ok,
                    )
                } else {
                    t.len() == 1 && r is Err
                }
            }),
    {
        let ghost before = self.log();
        let current = self.read_register(register);
        match current {
            Ok(v) => {
                let ghost middle = self.log();
                let r = self.write_register(register, (v & keep) | set);
                proof {
                    assert(appended(before, self.log()) =~= appended(before, middle).push(
                        self.log().last(),
                    ));
                }
                r
            },
            Err(e) => Err(e),
        }
    }
}

/// The byte `byte` with the bits of `bits` set, or cleared.
pub open spec fn with_bits(byte: u8, bits: u8, set: bool) -> u8 {
    if set {
        byte | bits
    } else {
        byte & !bits
    }
}

/// The byte `byte` with the bits of `bits` set, or cleared.
pub fn set_bits(byte: u8, bits: u8, set: bool) -> (r: u8)
    ensures
        r == with_bits(byte, bits, set),
{
    if set {
        byte | bits
    } else {
        byte & !bits
    }
}

/// Keeping every bit and adding `bit` sets it; keeping all but `bit` and
/// adding nothing clears it.
pub proof fn lemma_set_or_clear(b: u8, bit: u8)
    ensures
        (b & 0xFF) | bit == b | bit,
        (b & !bit) | 0 == b & !bit,
{
    assert((b & 0xFF) | bit == b | bit) by (bit_vector);
    assert((b & !bit) | 0 == b & !bit) by (bit_vector);
}

/// The signed 16-bit value whose two's-complement bytes are `high` and `low`.
pub open spec fn word(high: u8, low: u8) -> int {
    if high < 0x80 {
        high * 256 + low
    } else {
        high * 256 + low - 0x1_0000
    }
}

/// Puts the two's-complement bytes `high` and `low` together.
pub fn to_word(high: u8, low: u8) -> (r: i16)
    ensures
        r as int == word(high, low),
{
    let v: i32 = (high as i32) * 256 + (low as i32);
    if high < 0x80 {
        v as i16
    } else {
        (v - 0x1_0000) as i16
    }
}

/// Splitting a 16-bit value into its low byte and its high byte, and putting
/// them together again, gives the value back.
pub proof fn lemma_word_round_trip(v: i16)
    ensures
        word(((v >> 8) & 0xFF) as u8, (v & 0xFF) as u8) == v,
{
    assert(word(((v >> 8) & 0xFF) as u8, (v & 0xFF) as u8) == v) by (bit_vector);
}

} // verus!
