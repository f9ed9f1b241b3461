//! The gyroscope: its register map and typed operations.

use vstd::prelude::*;

use crate::bus::{
    appended, reads, set_bits, to_word, with_bits, word, writes, I2cBus, RegisterPort,
    Transfer,
};
use crate::config::{decode_result, Bmi088PinBehavior, DeviceError, GyroBandwidth, GyroRange};

verus! {

pub const GYRO_CHIP_ID: u8 = 0x00;
pub const GYRO_X_LSB: u8 = 0x02;
pub const GYRO_INT_STAT_1: u8 = 0x0A;
pub const GYRO_RANGE: u8 = 0x0F;
pub const GYRO_BANDWIDTH: u8 = 0x10;
pub const GYRO_LPM1: u8 = 0x11;
pub const GYRO_SOFTRESET: u8 = 0x14;
pub const GYRO_INT_CTRL: u8 = 0x15;
pub const GYRO_INT3_INT4_IO_CONF: u8 = 0x16;
pub const GYRO_INT3_INT4_IO_MAP: u8 = 0x18;

/// Open-drain bit of pin 3 in the shared IO configuration register.
pub const INT3_OPEN_DRAIN_BIT: u8 = 0b0000_0010;
/// Active-high bit of pin 3 in the shared IO configuration register.
pub const INT3_ACTIVE_HIGH_BIT: u8 = 0b0000_0001;
/// Open-drain bit of pin 4 in the shared IO configuration register.
pub const INT4_OPEN_DRAIN_BIT: u8 = 0b0000_1000;
/// Active-high bit of pin 4 in the shared IO configuration register.
pub const INT4_ACTIVE_HIGH_BIT: u8 = 0b0000_0100;
/// Bit of the map register that routes data-ready to pin 3.
pub const INT3_MAP_BIT: u8 = 0b0000_0001;
/// Bit of the map register that routes data-ready to pin 4.
pub const INT4_MAP_BIT: u8 = 0b1000_0000;

/// The bandwidth field of the bandwidth register: bit 7 reads as one and
/// is ignored.
pub open spec fn gyro_bandwidth_field(raw: u8) -> u8 {
    raw & 0x7F
}

/// `t` is the sequence that configures a pin: interrupts enabled, the IO
/// configuration read and written back with the pin's open-drain and
/// active-high bits as asked, then the map register read and written back
/// with `map_bit` as asked. A failed transaction ends it; `ok` is the
/// outcome of the last.
pub open spec fn configures_gyro_pin(
    t: Seq<Transfer>,
    address: u8,
    open_drain_bit: u8,
    active_high_bit: u8,
    map_bit: u8,
    open_drain: bool,
    active_high: bool,
    map_interrupt: bool,
    ok: bool,
) -> bool {
    &&& t.len() >= 1
    &&& t[0] == writes(address, GYRO_INT_CTRL, 0x80, t[0].ok())
    &&& if !t[0].ok() {
        t.len() == 1 && !ok
    } else {
        &&& t.len() >= 2
        &&& reads(t[1], address, GYRO_INT3_INT4_IO_CONF, 1)
        &&& if !t[1].ok() {
            t.len() == 2 && !ok
        } else {
            &&& t.len() >= 3
            &&& t[2] == writes(
                address,
                GYRO_INT3_INT4_IO_CONF,
                with_bits(
                    with_bits(t[1].received()[0], open_drain_bit, open_drain),
                    active_high_bit,
                    active_high,
                ),
                t[2].ok(),
            )
            &&& if !t[2].ok() {
                t.len() == 3 && !ok
            } else {
                &&& t.len() >= 4
                &&& reads(t[3], address, GYRO_INT3_INT4_IO_MAP, 1)
                &&& if !t[3].ok() {
                    t.len() == 4 && !ok
                } else {
                    &&& t.len() == 5
                    &&& t[4] == writes(
                        address,
                        GYRO_INT3_INT4_IO_MAP,
                        with_bits(t[3].received()[0], map_bit, map_interrupt),
                        ok,
                    )
                }
            }
        }
    }
}

/// When the first transaction of a pin configuration fails, no other
/// follows and the configuration fails.
pub proof fn lemma_gyro_pin_failure_ends_sequence(
    t: Seq<Transfer>,
    address: u8,
    open_drain_bit: u8,
    active_high_bit: u8,
    map_bit: u8,
    open_drain: bool,
    active_high: bool,
    map_interrupt: bool,
    ok: bool,
)
    requires
        configures_gyro_pin(
            t,
            address,
            open_drain_bit,
            active_high_bit,
            map_bit,
            open_drain,
            active_high,
            map_interrupt,
            ok,
        ),
        !t[0].ok(),
    ensures
        t.len() == 1,
        !ok,
{
}

/// Bit 7 of the bandwidth register does not take part in decoding: a byte
/// with it set decodes as the same byte with it clear, and a written value
/// reads back as itself either way.
pub proof fn lemma_gyro_bandwidth_ignores_bit7(raw: u8, bandwidth: GyroBandwidth)
    ensures
        gyro_bandwidth_field(raw | 0x80) == gyro_bandwidth_field(raw & 0x7F),
        GyroBandwidth::decoding(gyro_bandwidth_field(bandwidth.encoding() | 0x80)) == Some(
            bandwidth,
        ),
        GyroBandwidth::decoding(gyro_bandwidth_field(bandwidth.encoding())) == Some(bandwidth),
{
    let e = bandwidth.encoding();
    assert((raw | 0x80) & 0x7F == (raw & 0x7F) & 0x7F) by (bit_vector);
    assert((e | 0x80) & 0x7F == e && e & 0x7F == e) by (bit_vector)
        requires
            e <= 7,
    ;
}

/// Setting one pin's bits leaves the other pin's bits as they were, in the
/// shared IO configuration register and in the shared map register, and
/// sets the pin's own bits as asked.
pub proof fn lemma_gyro_pins_independent(
    conf: u8,
    map: u8,
    open_drain: bool,
    active_high: bool,
    enable: bool,
)
    ensures
        ({
            let c3 = with_bits(
                with_bits(conf, INT3_OPEN_DRAIN_BIT, open_drain),
                INT3_ACTIVE_HIGH_BIT,
                active_high,
            );
            &&& c3 & 0b1111_1100 == conf & 0b1111_1100
            &&& (c3 & INT3_OPEN_DRAIN_BIT != 0) == open_drain
            &&& (c3 & INT3_ACTIVE_HIGH_BIT != 0) == active_high
        }),
        ({
            let c4 = with_bits(
                with_bits(conf, INT4_OPEN_DRAIN_BIT, open_drain),
                INT4_ACTIVE_HIGH_BIT,
                active_high,
            );
            &&& c4 & 0b1111_0011 == conf & 0b1111_0011
            &&& (c4 & INT4_OPEN_DRAIN_BIT != 0) == open_drain
            &&& (c4 & INT4_ACTIVE_HIGH_BIT != 0) == active_high
        }),
        with_bits(map, INT3_MAP_BIT, enable) & INT4_MAP_BIT == map & INT4_MAP_BIT,
        with_bits(map, INT4_MAP_BIT, enable) & INT3_MAP_BIT == map & INT3_MAP_BIT,
        (with_bits(map, INT3_MAP_BIT, enable) & INT3_MAP_BIT != 0) == enable,
        (with_bits(map, INT4_MAP_BIT, enable) & INT4_MAP_BIT != 0) == enable,
{
    let c3 = with_bits(with_bits(conf, 0b0000_0010u8, open_drain), 0b0000_0001u8, active_high);
    let c4 = with_bits(with_bits(conf, 0b0000_1000u8, open_drain), 0b0000_0100u8, active_high);
    assert(c3 & 0b1111_1100 == conf & 0b1111_1100 && (c3 & 0b0000_0010 != 0) == open_drain && (
    c3 & 0b0000_0001 != 0) == active_high) by (bit_vector)
        requires
            c3 == with_bits(with_bits(conf, 0b0000_0010u8, open_drain), 0b0000_0001u8, active_high),
    ;
    assert(c4 & 0b1111_0011 == conf & 0b1111_0011 && (c4 & 0b0000_1000 != 0) == open_drain && (
    c4 & 0b0000_0100 != 0) == active_high) by (bit_vector)
        requires
            c4 == with_bits(with_bits(conf, 0b0000_1000u8, open_drain), 0b0000_0100u8, active_high),
    ;
    assert(with_bits(map, 0b0000_0001u8, enable) & 0b1000_0000 == map & 0b1000_0000 && with_bits(
        map,
        0b1000_0000u8,
        enable,
    ) & 0b0000_0001 == map & 0b0000_0001 && (with_bits(map, 0b0000_0001u8, enable) & 0b0000_0001
        != 0) == enable && (with_bits(map, 0b1000_0000u8, enable) & 0b1000_0000 != 0) == enable)
        by (bit_vector);
}

/// The gyroscope at one bus address.
///
/// The cached bandwidth and range hold what the last successful read of
/// each returned; writing a setting leaves them as they are.
pub struct Bmi088Gyroscope<I2C> {
    port: RegisterPort<I2C>,
    bandwidth: GyroBandwidth,
    range: GyroRange,
}

impl<I2C: I2cBus> Bmi088Gyroscope<I2C> {
    /// The transactions carried out on the device's bus so far.
    pub closed spec fn log(&self) -> Seq<Transfer> {
        self.port.log()
    }

    /// The transactions carried out since the device was in state `earlier`.
    pub closed spec fn since(&self, earlier: &Self) -> Seq<Transfer> {
        appended(earlier.log(), self.log())
    }

    /// The device's bus address.
    pub closed spec fn addr(&self) -> u8 {
        self.port.addr()
    }

    /// The cached bandwidth.
    pub closed spec fn cached_bandwidth(&self) -> GyroBandwidth {
        self.bandwidth
    }

    /// The cached range.
    pub closed spec fn cached_range(&self) -> GyroRange {
        self.range
    }

    /// `self` follows `earlier` by transactions on the bus alone.
    pub closed spec fn follows(&self, earlier: &Self) -> bool {
        &&& earlier.log().is_prefix_of(self.log())
        &&& self.addr() == earlier.addr()
        &&& self.bandwidth == earlier.bandwidth
        &&& self.range == earlier.range
    }

    proof fn lemma_follows_chain(a: &Self, b: &Self, c: &Self)
        requires
            b.follows(a),
            c.follows(b),
        ensures
            c.follows(a),
            c.since(a) == b.since(a) + c.since(b),
    {
        assert(c.since(a) =~= b.since(a) + c.since(b));
    }

    /// A device on `i2c` at `address`, with the caches at the power-on
    /// defaults: 2000 Hz with the 532 Hz filter, plus or minus 2000 degrees
    /// per second.
    pub fn new(i2c: I2C, address: u8) -> (r: Self)
        ensures
            r.log() == Seq::<Transfer>::empty(),
            r.addr() == address,
            r.cached_bandwidth() == GyroBandwidth::Data2000Filter532,
            r.cached_range() == GyroRange::Deg2000,
    {
        Self {
            port: RegisterPort::new(i2c, address),
            bandwidth: GyroBandwidth::Data2000Filter532,
            range: GyroRange::Deg2000,
        }
    }

    /// Reads one byte from `register`.
    fn read_byte(&mut self, register: u8) -> (r: Result<u8, I2C::Error>)
        ensures
            final(self).follows(old(self)),
            ({
                let t = final(self).since(old(self));
                &&& t.len() == 1
                &&& reads(t[0], old(self).addr(), register, 1)
                &&& t[0].ok() == r is Ok
                &&& r is Ok ==> r->Ok_0 == t[0].received()[0]
            }),
    {
        self.port.read_register(register)
    }

    /// Writes `value` into `register`.
    fn write_byte(&mut self, register: u8, value: u8) -> (r: Result<(), I2C::Error>)
        ensures
            final(self).follows(old(self)),
            final(self).since(old(self)) == seq![writes(old(self).addr(), register, value, r is Ok)],
    {
        let r = self.port.write_register(register, value);
        proof {
            assert(self.since(old(self)) =~= seq![self.log().last()]);
        }
        r
    }

    /// Reads the chip identification byte.
    pub fn read_chip_id(&mut self) -> (r: Result<u8, I2C::Error>)
        ensures
            final(self).follows(old(self)),
            ({
                let t = final(self).since(old(self));
                &&& t.len() == 1
                &&& reads(t[0], old(self).addr(), GYRO_CHIP_ID, 1)
                &&& t[0].ok() == r is Ok
                &&& r is Ok ==> r->Ok_0 == t[0].received()[0]
            }),
    {
        self.read_byte(GYRO_CHIP_ID)
    }

    /// Reads the three axes, each a little-endian signed 16-bit value.
    pub fn read_data(&mut self) -> (r: Result<(i16, i16, i16), I2C::Error>)
        ensures
            final(self).follows(old(self)),
            ({
                let t = final(self).since(old(self));
                let d = t[0].received();
                &&& t.len() == 1
                &&& reads(t[0], old(self).addr(), GYRO_X_LSB, 6)
                &&& t[0].ok() == r is Ok
                &&& r is Ok ==> {
                    &&& r->Ok_0.0 == word(d[1], d[0])
                    &&& r->Ok_0.1 == word(d[3], d[2])
                    &&& r->Ok_0.2 == word(d[5], d[4])
                }
            }),
    {
        let r = self.port.read_registers::<6>(GYRO_X_LSB);
        match r {
            Ok(d) => Ok((to_word(d[1], d[0]), to_word(d[3], d[2]), to_word(d[5], d[4]))),
            Err(e) => Err(e),
        }
    }

    /// Whether the interrupt status reports a new sample (bit 7).
    pub fn data_ready_interrupt(&mut self) -> (r: Result<bool, I2C::Error>)
        ensures
            final(self).follows(old(self)),
            ({
                let t = final(self).since(old(self));
                &&& t.len() == 1
                &&& reads(t[0], old(self).addr(), GYRO_INT_STAT_1, 1)
                &&& t[0].ok() == r is Ok
                &&& r is Ok ==> r->Ok_0 == (t[0].received()[0] & 0x80 != 0)
            }),
    {
        match self.read_byte(GYRO_INT_STAT_1) {
            Ok(v) => Ok(v & 0x80 != 0),
            Err(e) => Err(e),
        }
    }

    /// Writes the full-scale range. The cache is left as it is.
    pub fn set_range(&mut self, range: GyroRange) -> (r: Result<(), I2C::Error>)
        ensures
            final(self).follows(old(self)),
            final(self).since(old(self)) == seq![
                writes(old(self).addr(), GYRO_RANGE, range.encoding(), r is Ok),
            ],
    {
        self.write_byte(GYRO_RANGE, range.encode())
    }

    /// Reads the full-scale range and caches it.
    pub fn get_range(&mut self) -> (r: Result<GyroRange, DeviceError<I2C::Error>>)
        ensures
            final(self).addr() == old(self).addr(),
            final(self).cached_bandwidth() == old(self).cached_bandwidth(),
            final(self).cached_range() == (if r is Ok {
                r->Ok_0
            } else {
                old(self).cached_range()
            }),
            old(self).log().is_prefix_of(final(self).log()),
            ({
                let t = final(self).since(old(self));
                let v = t[0].received()[0];
                &&& t.len() == 1
                &&& reads(t[0], old(self).addr(), GYRO_RANGE, 1)
                &&& !t[0].ok() ==> (r is Err && r->Err_0 is Bus)
                &&& t[0].ok() ==> r == decode_result::<GyroRange, I2C::Error>(
                    GyroRange::decoding(v),
                    GYRO_RANGE,
                    v,
                )
            }),
    {
        match self.read_byte(GYRO_RANGE) {
            Ok(v) => match GyroRange::decode(v) {
                Some(g) => {
                    self.range = g;
                    Ok(g)
                },
                None => Err(DeviceError::UnrecognizedValue { register: GYRO_RANGE, value: v }),
            },
            Err(e) => Err(DeviceError::Bus(e)),
        }
    }

    /// Writes the bandwidth, which also sets the data rate. The cache is left
    /// as it is.
    pub fn set_bandwidth(&mut self, bandwidth: GyroBandwidth) -> (r: Result<(), I2C::Error>)
        ensures
            final(self).follows(old(self)),
            final(self).since(old(self)) == seq![
                writes(old(self).addr(), GYRO_BANDWIDTH, bandwidth.encoding(), r is Ok),
            ],
    {
        self.write_byte(GYRO_BANDWIDTH, bandwidth.encode())
    }

    /// Reads the bandwidth, ignoring bit 7, and caches it.
    pub fn get_bandwidth(&mut self) -> (r: Result<GyroBandwidth, DeviceError<I2C::Error>>)
        ensures
            final(self).addr() == old(self).addr(),
            final(self).cached_range() == old(self).cached_range(),
            final(self).cached_bandwidth() == (if r is Ok {
                r->Ok_0
            } else {
                old(self).cached_bandwidth()
            }),
            old(self).log().is_prefix_of(final(self).log()),
            ({
                let t = final(self).since(old(self));
                let v = t[0].received()[0];
                &&& t.len() == 1
                &&& reads(t[0], old(self).addr(), GYRO_BANDWIDTH, 1)
                &&& !t[0].ok() ==> (r is Err && r->Err_0 is Bus)
                &&& t[0].ok() ==> r == decode_result::<GyroBandwidth, I2C::Error>(
                    GyroBandwidth::decoding(gyro_bandwidth_field(v)),
                    GYRO_BANDWIDTH,
                    v,
                )
            }),
    {
        match self.read_byte(GYRO_BANDWIDTH) {
            Ok(v) => match GyroBandwidth::decode(v & 0x7F) {
                Some(b) => {
                    self.bandwidth = b;
                    Ok(b)
                },
                None => Err(DeviceError::UnrecognizedValue { register: GYRO_BANDWIDTH, value: v }),
            },
            Err(e) => Err(DeviceError::Bus(e)),
        }
    }

    /// Switches the sensor on (0x00) or off (0x80).
    pub fn set_on(&mut self, on: bool) -> (r: Result<(), I2C::Error>)
        ensures
            final(self).follows(old(self)),
            final(self).since(old(self)) == seq![
                writes(old(self).addr(), GYRO_LPM1, if on { 0x00 } else { 0x80 }, r is Ok),
            ],
    {
        let data: u8 = if on { 0x00 } else { 0x80 };
        self.write_byte(GYRO_LPM1, data)
    }

    /// Sends the soft-reset command.
    pub fn reset(&mut self) -> (r: Result<(), I2C::Error>)
        ensures
            final(self).follows(old(self)),
            final(self).since(old(self)) == seq![
                writes(old(self).addr(), GYRO_SOFTRESET, 0xB6, r is Ok),
            ],
    {
        self.write_byte(GYRO_SOFTRESET, 0xB6)
    }
    /// Enables the interrupt output, then sets the pin's open-drain and
    /// active-high bits in the shared IO configuration register and its bit
    /// of the shared map register. A failed transaction ends the sequence.
    fn configure_pin(
        &mut self,
        open_drain_bit: u8,
        active_high_bit: u8,
        map_bit: u8,
        behavior: Bmi088PinBehavior,
        active_high: bool,
        map_interrupt: bool,
    ) -> (r: Result<(), I2C::Error>)
        ensures
            final(self).follows(old(self)),
            configures_gyro_pin(
                final(self).since(old(self)),
                old(self).addr(),
                open_drain_bit,
                active_high_bit,
                map_bit,
                behavior == Bmi088PinBehavior::OpenDrain,
                active_high,
                map_interrupt,
                r is Ok,
            ),
    {
        let ghost s0 = *self;
        let enabled = self.write_byte(GYRO_INT_CTRL, 0x80);
        if let Err(e) = enabled {
            return Err(e);
        }
        let ghost s1 = *self;
        let conf = self.read_byte(GYRO_INT3_INT4_IO_CONF);
        proof {
            Self::lemma_follows_chain(&s0, &s1, self);
        }
        let conf = match conf {
            Ok(c) => c,
            Err(e) => return Err(e),
        };
        let open_drain = match behavior {
            Bmi088PinBehavior::OpenDrain => true,
            Bmi088PinBehavior::PushPull => false,
        };
        let conf = set_bits(set_bits(conf, open_drain_bit, open_drain), active_high_bit, active_high);
        let ghost s2 = *self;
        let written = self.write_byte(GYRO_INT3_INT4_IO_CONF, conf);
        proof {
            Self::lemma_follows_chain(&s0, &s2, self);
            Self::lemma_follows_chain(&s1, &s2, self);
        }
        if let Err(e) = written {
            return Err(e);
        }
        let ghost s3 = *self;
        let map = self.read_byte(GYRO_INT3_INT4_IO_MAP);
        proof {
            Self::lemma_follows_chain(&s0, &s3, self);
            Self::lemma_follows_chain(&s2, &s3, self);
            Self::lemma_follows_chain(&s1, &s3, self);
        }
        let map = match map {
            Ok(m) => m,
            Err(e) => return Err(e),
        };
        let ghost s4 = *self;
        let r = self.write_byte(GYRO_INT3_INT4_IO_MAP, set_bits(map, map_bit, map_interrupt));
        proof {
            Self::lemma_follows_chain(&s0, &s4, self);
            Self::lemma_follows_chain(&s3, &s4, self);
            Self::lemma_follows_chain(&s2, &s4, self);
            Self::lemma_follows_chain(&s1, &s4, self);
        }
        r
    }

    /// Configures interrupt pin 3 (open drain bit 1, active high bit 0) and
    /// routes data-ready to it, or away from it (map bit 0).
    pub fn configure_int3_pin(
        &mut self,
        behavior: Bmi088PinBehavior,
        active_high: bool,
        map_interrupt: bool,
    ) -> (r: Result<(), I2C::Error>)
        ensures
            final(self).follows(old(self)),
            configures_gyro_pin(
                final(self).since(old(self)),
                old(self).addr(),
                INT3_OPEN_DRAIN_BIT,
                INT3_ACTIVE_HIGH_BIT,
                INT3_MAP_BIT,
                behavior == Bmi088PinBehavior::OpenDrain,
                active_high,
                map_interrupt,
                r is Ok,
            ),
    {
        self.configure_pin(
            INT3_OPEN_DRAIN_BIT,
            INT3_ACTIVE_HIGH_BIT,
            INT3_MAP_BIT,
            behavior,
            active_high,
            map_interrupt,
        )
    }

    /// Configures interrupt pin 4 (open drain bit 3, active high bit 2) and
    /// routes data-ready to it, or away from it (map bit 7).
    pub fn configure_int4_pin(
        &mut self,
        behavior: Bmi088PinBehavior,
        active_high: bool,
        map_interrupt: bool,
    ) -> (r: Result<(), I2C::Error>)
        ensures
            final(self).follows(old(self)),
            configures_gyro_pin(
                final(self).since(old(self)),
                old(self).addr(),
                INT4_OPEN_DRAIN_BIT,
                INT4_ACTIVE_HIGH_BIT,
                INT4_MAP_BIT,
                behavior == Bmi088PinBehavior::OpenDrain,
                active_high,
                map_interrupt,
                r is Ok,
            ),
    {
        self.configure_pin(
            INT4_OPEN_DRAIN_BIT,
            INT4_ACTIVE_HIGH_BIT,
            INT4_MAP_BIT,
            behavior,
            active_high,
            map_interrupt,
        )
    }
}

} // verus!
