//! The accelerometer: its register map and typed operations, with the
//! temperature sensor that sits beside it.

use vstd::prelude::*;

use crate::bus::{
    appended, lemma_set_or_clear, reads, to_word, with_bits, word, writes, I2cBus,
    RegisterPort, Transfer,
};
use crate::config::{
    decode_result, AccelDataRate, AccelError, AccelFilterBandwidth, AccelRange,
    Bmi088PinBehavior, Bmi088PinMode, DeviceError,
};

verus! {

pub const ACC_CHIP_ID: u8 = 0x00;
pub const ACC_ERR_REG: u8 = 0x02;
pub const ACC_STATUS: u8 = 0x03;
pub const ACC_X_LSB: u8 = 0x12;
pub const ACC_INT_STAT_1: u8 = 0x1D;
pub const TEMP_MSB: u8 = 0x22;
pub const ACC_CONFIG: u8 = 0x40;
pub const ACC_RANGE: u8 = 0x41;
pub const INT1_IO_CONF: u8 = 0x53;
pub const INT2_IO_CONF: u8 = 0x53;
pub const INT1_INT2_MAP_DATA: u8 = 0x58;
pub const ACC_PWR_CONF: u8 = 0x7C;
pub const ACC_PWR_CTRL: u8 = 0x7D;
pub const ACC_SOFTRESET: u8 = 0x7E;

/// Bit of the map register that routes data-ready to pin 1.
pub const INT1_MAP_BIT: u8 = 0b0000_0100;
/// Bit of the map register that routes data-ready to pin 2.
pub const INT2_MAP_BIT: u8 = 0b0100_0000;

/// The configuration byte `config` with its bandwidth field (bits 4 to 6)
/// replaced.
pub open spec fn with_bandwidth(config: u8, bandwidth: AccelFilterBandwidth) -> u8 {
    (config & 0b1000_1111) | (bandwidth.encoding() << 4u8)
}

/// The bandwidth field of the configuration byte.
pub open spec fn bandwidth_field(config: u8) -> u8 {
    (config & 0b0111_0000) >> 4u8
}

/// The configuration byte `config` with its data-rate field (bits 0 to 3)
/// replaced.
pub open spec fn with_data_rate(config: u8, rate: AccelDataRate) -> u8 {
    (config & 0b1111_0000) | rate.encoding()
}

/// The data-rate field of the configuration byte.
pub open spec fn data_rate_field(config: u8) -> u8 {
    config & 0b0000_1111
}

/// The IO configuration byte of a pin: mode in bits 3 and 4, open drain in
/// bit 2, active high in bit 1.
pub open spec fn pin_io_conf(mode: Bmi088PinMode, behavior: Bmi088PinBehavior, active_high: bool) -> u8 {
    let m: u8 = match mode {
        Bmi088PinMode::Input => 0b0001_0000,
        Bmi088PinMode::Output => 0b0000_1000,
        Bmi088PinMode::Disabled => 0,
    };
    let b: u8 = if behavior == Bmi088PinBehavior::OpenDrain { 0b0000_0100 } else { 0 };
    let p: u8 = if active_high { 0b0000_0010 } else { 0 };
    m | b | p
}

/// `t` is the sequence that configures a pin: `conf` written to `io_conf`,
/// then the map register read and written back with `map_bit` set or
/// cleared. A failed transaction ends it; `ok` is the outcome of the last.
pub open spec fn configures_pin(
    t: Seq<Transfer>,
    address: u8,
    io_conf: u8,
    conf: u8,
    map_bit: u8,
    map_interrupt: bool,
    ok: bool,
) -> bool {
    &&& t.len() >= 1
    &&& t[0] == writes(address, io_conf, conf, t[0].ok())
    &&& if !t[0].ok() {
        t.len() == 1 && !ok
    } else {
        &&& t.len() >= 2
        &&& reads(t[1], address, INT1_INT2_MAP_DATA, 1)
        &&& if t[1].ok() {
            &&& t.len() == 3
            &&& t[2] == writes(
                address,
                INT1_INT2_MAP_DATA,
                with_bits(t[1].received()[0], map_bit, map_interrupt),
                ok,
            )
        } else {
            t.len() == 2 && !ok
        }
    }
}

/// When the first transaction of a pin configuration fails, no other
/// follows and the configuration fails.
pub proof fn lemma_pin_failure_ends_sequence(
    t: Seq<Transfer>,
    address: u8,
    io_conf: u8,
    conf: u8,
    map_bit: u8,
    map_interrupt: bool,
    ok: bool,
)
    requires
        configures_pin(t, address, io_conf, conf, map_bit, map_interrupt, ok),
        !t[0].ok(),
    ensures
        t.len() == 1,
        !ok,
{
}

/// Writing a bandwidth or a data rate into a configuration byte and reading
/// that field back gives the value written; the bits outside the field,
/// the other field among them, stay as they were.
pub proof fn lemma_config_fields_round_trip(
    config: u8,
    bandwidth: AccelFilterBandwidth,
    rate: AccelDataRate,
)
    ensures
        AccelFilterBandwidth::decoding(bandwidth_field(with_bandwidth(config, bandwidth))) == Some(
            bandwidth,
        ),
        with_bandwidth(config, bandwidth) & 0b1000_1111 == config & 0b1000_1111,
        data_rate_field(with_bandwidth(config, bandwidth)) == data_rate_field(config),
        AccelDataRate::decoding(data_rate_field(with_data_rate(config, rate))) == Some(rate),
        with_data_rate(config, rate) & 0b1111_0000 == config & 0b1111_0000,
        bandwidth_field(with_data_rate(config, rate)) == bandwidth_field(config),
{
    let b = bandwidth.encoding();
    let d = rate.encoding();
    assert(b <= 2 && 5 <= d <= 12);
    assert((((config & 0b1000_1111) | (b << 4u8)) & 0b0111_0000) >> 4u8 == b) by (bit_vector)
        requires
            b <= 2,
    ;
    assert(((config & 0b1000_1111) | (b << 4u8)) & 0b1000_1111 == config & 0b1000_1111) by (bit_vector)
        requires
            b <= 2,
    ;
    assert(((config & 0b1000_1111) | (b << 4u8)) & 0b0000_1111 == config & 0b0000_1111) by (bit_vector)
        requires
            b <= 2,
    ;
    assert(((config & 0b1111_0000) | d) & 0b0000_1111 == d) by (bit_vector)
        requires
            d <= 12,
    ;
    assert(((config & 0b1111_0000) | d) & 0b1111_0000 == config & 0b1111_0000) by (bit_vector)
        requires
            d <= 12,
    ;
    assert((((config & 0b1111_0000) | d) & 0b0111_0000) >> 4u8 == (config & 0b0111_0000) >> 4u8) by (bit_vector)
        requires
            d <= 12,
    ;
}

/// Routing data-ready to one pin, or away from it, sets that pin's bit of
/// the shared map register as asked and leaves the other pin's bit as it
/// was.
pub proof fn lemma_pin_maps_independent(map: u8, enable: bool)
    ensures
        with_bits(map, INT1_MAP_BIT, enable) & INT2_MAP_BIT == map & INT2_MAP_BIT,
        with_bits(map, INT2_MAP_BIT, enable) & INT1_MAP_BIT == map & INT1_MAP_BIT,
        (with_bits(map, INT1_MAP_BIT, enable) & INT1_MAP_BIT != 0) == enable,
        (with_bits(map, INT2_MAP_BIT, enable) & INT2_MAP_BIT != 0) == enable,
{
    assert((map | 0b0000_0100u8) & 0b0100_0000u8 == map & 0b0100_0000u8) by (bit_vector);
    assert((map & !0b0000_0100u8) & 0b0100_0000u8 == map & 0b0100_0000u8) by (bit_vector);
    assert((map | 0b0100_0000u8) & 0b0000_0100u8 == map & 0b0000_0100u8) by (bit_vector);
    assert((map & !0b0100_0000u8) & 0b0000_0100u8 == map & 0b0000_0100u8) by (bit_vector);
    assert((map | 0b0000_0100u8) & 0b0000_0100u8 != 0) by (bit_vector);
    assert((map & !0b0000_0100u8) & 0b0000_0100u8 == 0) by (bit_vector);
    assert((map | 0b0100_0000u8) & 0b0100_0000u8 != 0) by (bit_vector);
    assert((map & !0b0100_0000u8) & 0b0100_0000u8 == 0) by (bit_vector);
}

/// The accelerometer at one bus address.
///
/// The cached bandwidth, data rate and range hold what the last successful
/// read of each returned; writing a setting leaves them as they are, so call
/// the matching read after a write to refresh them.
pub struct Bmi088Accelerometer<I2C> {
    port: RegisterPort<I2C>,
    bandwidth: AccelFilterBandwidth,
    data_rate: AccelDataRate,
    range: AccelRange,
}

impl<I2C: I2cBus> Bmi088Accelerometer<I2C> {
    /// The transactions carried out on the device's bus so far.
    pub closed spec fn log(&self) -> Seq<Transfer> {
        self.port.log()
    }

    /// The transactions carried out since the device was in state `earlier`.
    pub closed spec fn since(&self, earlier: &Self) -> Seq<Transfer> {
        appended(earlier.log(), self.log())
    }

    /// The device's bus address.
    pub closed spec fn addr(&self) -> u8 {
        self.port.addr()
    }

    /// The cached bandwidth.
    pub closed spec fn cached_bandwidth(&self) -> AccelFilterBandwidth {
        self.bandwidth
    }

    /// The cached data rate.
    pub closed spec fn cached_data_rate(&self) -> AccelDataRate {
        self.data_rate
    }

    /// The cached range.
    pub closed spec fn cached_range(&self) -> AccelRange {
        self.range
    }

    /// `self` follows `earlier` by transactions on the bus alone.
    pub closed spec fn follows(&self, earlier: &Self) -> bool {
        &&& earlier.log().is_prefix_of(self.log())
        &&& self.addr() == earlier.addr()
        &&& self.bandwidth == earlier.bandwidth
        &&& self.data_rate == earlier.data_rate
        &&& self.range == earlier.range
    }

    /// A device on `i2c` at `address`, with the caches at the power-on
    /// defaults: normal bandwidth, 100 Hz, plus or minus 6 g.
    pub fn new(i2c: I2C, address: u8) -> (r: Self)
        ensures
            r.log() == Seq::<Transfer>::empty(),
            r.addr() == address,
            r.cached_bandwidth() == AccelFilterBandwidth::Normal,
            r.cached_data_rate() == AccelDataRate::Hz100,
            r.cached_range() == AccelRange::G6,
    {
        Self {
            port: RegisterPort::new(i2c, address),
            bandwidth: AccelFilterBandwidth::Normal,
            data_rate: AccelDataRate::Hz100,
            range: AccelRange::G6,
        }
    }

    /// Reads one byte from `register`.
    fn read_byte(&mut self, register: u8) -> (r: Result<u8, I2C::Error>)
        ensures
            final(self).follows(old(self)),
            ({
                let t = final(self).since(old(self));
                &&& t.len() == 1
                &&& reads(t[0], old(self).addr(), register, 1)
                &&& t[0].ok() == r is Ok
                &&& r is Ok ==> r->Ok_0 == t[0].received()[0]
            }),
    {
        self.port.read_register(register)
    }

    /// Writes `value` into `register`.
    fn write_byte(&mut self, register: u8, value: u8) -> (r: Result<(), I2C::Error>)
        ensures
            final(self).follows(old(self)),
            final(self).since(old(self)) == seq![writes(old(self).addr(), register, value, r is Ok)],
    {
        let r = self.port.write_register(register, value);
        proof {
            assert(self.since(old(self)) =~= seq![self.log().last()]);
        }
        r
    }

    /// Reads the chip identification byte.
    pub fn read_chip_id(&mut self) -> (r: Result<u8, I2C::Error>)
        ensures
            final(self).follows(old(self)),
            ({
                let t = final(self).since(old(self));
                &&& t.len() == 1
                &&& reads(t[0], old(self).addr(), ACC_CHIP_ID, 1)
                &&& t[0].ok() == r is Ok
                &&& r is Ok ==> r->Ok_0 == t[0].received()[0]
            }),
    {
        self.read_byte(ACC_CHIP_ID)
    }

    /// Reads the fault flags that the sensor reports about itself.
    pub fn read_errors(&mut self) -> (r: Result<AccelError, I2C::Error>)
        ensures
            final(self).follows(old(self)),
            ({
                let t = final(self).since(old(self));
                &&& t.len() == 1
                &&& reads(t[0], old(self).addr(), ACC_ERR_REG, 1)
                &&& t[0].ok() == r is Ok
                &&& r is Ok ==> r->Ok_0 == AccelError::from_status(t[0].received()[0])
            }),
    {
        match self.read_byte(ACC_ERR_REG) {
            Ok(v) => Ok(AccelError { configuration_error: v & 0x0C != 0, fatal_error: v & 0x02 != 0 }),
            Err(e) => Err(e),
        }
    }

    /// Whether the status register reports a new sample (bit 7).
    pub fn is_data_ready(&mut self) -> (r: Result<bool, I2C::Error>)
        ensures
            final(self).follows(old(self)),
            ({
                let t = final(self).since(old(self));
                &&& t.len() == 1
                &&& reads(t[0], old(self).addr(), ACC_STATUS, 1)
                &&& t[0].ok() == r is Ok
                &&& r is Ok ==> r->Ok_0 == (t[0].received()[0] & 0x80 != 0)
            }),
    {
        match self.read_byte(ACC_STATUS) {
            Ok(v) => Ok(v & 0x80 != 0),
            Err(e) => Err(e),
        }
    }

    /// Reads the three axes, each a little-endian signed 16-bit value.
    pub fn read_data(&mut self) -> (r: Result<(i16, i16, i16), I2C::Error>)
        ensures
            final(self).follows(old(self)),
            ({
                let t = final(self).since(old(self));
                let d = t[0].received();
                &&& t.len() == 1
                &&& reads(t[0], old(self).addr(), ACC_X_LSB, 6)
                &&& t[0].ok() == r is Ok
                &&& r is Ok ==> {
                    &&& r->Ok_0.0 == word(d[1], d[0])
                    &&& r->Ok_0.1 == word(d[3], d[2])
                    &&& r->Ok_0.2 == word(d[5], d[4])
                }
            }),
    {
        let r = self.port.read_registers::<6>(ACC_X_LSB);
        match r {
            Ok(d) => Ok((to_word(d[1], d[0]), to_word(d[3], d[2]), to_word(d[5], d[4]))),
            Err(e) => Err(e),
        }
    }

    /// Whether the latched interrupt status reports a new sample (bit 7).
    pub fn data_ready_interrupt(&mut self) -> (r: Result<bool, I2C::Error>)
        ensures
            final(self).follows(old(self)),
            ({
                let t = final(self).since(old(self));
                &&& t.len() == 1
                &&& reads(t[0], old(self).addr(), ACC_INT_STAT_1, 1)
                &&& t[0].ok() == r is Ok
                &&& r is Ok ==> r->Ok_0 == (t[0].received()[0] & 0x80 != 0)
            }),
    {
        match self.read_byte(ACC_INT_STAT_1) {
            Ok(v) => Ok(v & 0x80 != 0),
            Err(e) => Err(e),
        }
    }

    /// Reads the raw temperature counts: the first byte is the high one.
    pub fn read_temperature(&mut self) -> (r: Result<i16, I2C::Error>)
        ensures
            final(self).follows(old(self)),
            ({
                let t = final(self).since(old(self));
                let d = t[0].received();
                &&& t.len() == 1
                &&& reads(t[0], old(self).addr(), TEMP_MSB, 2)
                &&& t[0].ok() == r is Ok
                &&& r is Ok ==> r->Ok_0 == word(d[0], d[1])
            }),
    {
        let r = self.port.read_registers::<2>(TEMP_MSB);
        match r {
            Ok(d) => Ok(to_word(d[0], d[1])),
            Err(e) => Err(e),
        }
    }
    /// Read-modify-write of `register`: keeps the bits of `keep`, adds those
    /// of `set`.
    fn update_byte(&mut self, register: u8, keep: u8, set: u8) -> (r: Result<(), I2C::Error>)
        ensures
            final(self).follows(old(self)),
            ({
                let t = final(self).since(old(self));
                &&& t.len() >= 1
                &&& reads(t[0], old(self).addr(), register, 1)
                &&& if t[0].ok() {
                    &&& t.len() == 2
                    &&& t[1] == writes(
                        old(self).addr(),
                        register,
                        (t[0].received()[0] & keep) | set,
                        r is Ok,
                    )
                } else {
                    t.len() == 1 && r is Err
                }
            }),
    {
        self.port.update_register(register, keep, set)
    }

    /// Sets the filter bandwidth, keeping the other bits of the
    /// configuration register. The cache is left as it is.
    pub fn set_bandwidth(&mut self, bandwidth: AccelFilterBandwidth) -> (r: Result<(), I2C::Error>)
        ensures
            final(self).follows(old(self)),
            ({
                let t = final(self).since(old(self));
                &&& t.len() >= 1
                &&& reads(t[0], old(self).addr(), ACC_CONFIG, 1)
                &&& if t[0].ok() {
                    &&& t.len() == 2
                    &&& t[1] == writes(
                        old(self).addr(),
                        ACC_CONFIG,
                        with_bandwidth(t[0].received()[0], bandwidth),
                        r is Ok,
                    )
                } else {
                    t.len() == 1 && r is Err
                }
            }),
    {
        self.update_byte(ACC_CONFIG, 0b1000_1111, bandwidth.encode() << 4u8)
    }

    /// Reads the filter bandwidth and caches it.
    pub fn read_bandwidth(&mut self) -> (r: Result<AccelFilterBandwidth, DeviceError<I2C::Error>>)
        ensures
            final(self).addr() == old(self).addr(),
            final(self).cached_data_rate() == old(self).cached_data_rate(),
            final(self).cached_range() == old(self).cached_range(),
            final(self).cached_bandwidth() == (if r is Ok {
                r->Ok_0
            } else {
                old(self).cached_bandwidth()
            }),
            old(self).log().is_prefix_of(final(self).log()),
            ({
                let t = final(self).since(old(self));
                let v = t[0].received()[0];
                &&& t.len() == 1
                &&& reads(t[0], old(self).addr(), ACC_CONFIG, 1)
                &&& !t[0].ok() ==> (r is Err && r->Err_0 is Bus)
                &&& t[0].ok() ==> r == decode_result::<AccelFilterBandwidth, I2C::Error>(
                    AccelFilterBandwidth::decoding(bandwidth_field(v)),
                    ACC_CONFIG,
                    v,
                )
            }),
    {
        match self.read_byte(ACC_CONFIG) {
            Ok(v) => match AccelFilterBandwidth::decode((v & 0b0111_0000) >> 4u8) {
                Some(b) => {
                    self.bandwidth = b;
                    Ok(b)
                },
                None => Err(DeviceError::UnrecognizedValue { register: ACC_CONFIG, value: v }),
            },
            Err(e) => Err(DeviceError::Bus(e)),
        }
    }

    /// The bandwidth that the last successful read returned.
    pub fn get_bandwidth(&self) -> (r: AccelFilterBandwidth)
        ensures
            r == self.cached_bandwidth(),
    {
        self.bandwidth
    }

    /// Sets the output data rate, keeping the other bits of the
    /// configuration register. The cache is left as it is.
    pub fn set_data_rate(&mut self, data_rate: AccelDataRate) -> (r: Result<(), I2C::Error>)
        ensures
            final(self).follows(old(self)),
            ({
                let t = final(self).since(old(self));
                &&& t.len() >= 1
                &&& reads(t[0], old(self).addr(), ACC_CONFIG, 1)
                &&& if t[0].ok() {
                    &&& t.len() == 2
                    &&& t[1] == writes(
                        old(self).addr(),
                        ACC_CONFIG,
                        with_data_rate(t[0].received()[0], data_rate),
                        r is Ok,
                    )
                } else {
                    t.len() == 1 && r is Err
                }
            }),
    {
        self.update_byte(ACC_CONFIG, 0b1111_0000, data_rate.encode())
    }

    /// Reads the output data rate and caches it.
    pub fn read_data_rate(&mut self) -> (r: Result<AccelDataRate, DeviceError<I2C::Error>>)
        ensures
            final(self).addr() == old(self).addr(),
            final(self).cached_bandwidth() == old(self).cached_bandwidth(),
            final(self).cached_range() == old(self).cached_range(),
            final(self).cached_data_rate() == (if r is Ok {
                r->Ok_0
            } else {
                old(self).cached_data_rate()
            }),
            old(self).log().is_prefix_of(final(self).log()),
            ({
                let t = final(self).since(old(self));
                let v = t[0].received()[0];
                &&& t.len() == 1
                &&& reads(t[0], old(self).addr(), ACC_CONFIG, 1)
                &&& !t[0].ok() ==> (r is Err && r->Err_0 is Bus)
                &&& t[0].ok() ==> r == decode_result::<AccelDataRate, I2C::Error>(
                    AccelDataRate::decoding(data_rate_field(v)),
                    ACC_CONFIG,
                    v,
                )
            }),
    {
        match self.read_byte(ACC_CONFIG) {
            Ok(v) => match AccelDataRate::decode(v & 0b0000_1111) {
                Some(d) => {
                    self.data_rate = d;
                    Ok(d)
                },
                None => Err(DeviceError::UnrecognizedValue { register: ACC_CONFIG, value: v }),
            },
            Err(e) => Err(DeviceError::Bus(e)),
        }
    }

    /// The data rate that the last successful read returned.
    pub fn get_data_rate(&self) -> (r: AccelDataRate)
        ensures
            r == self.cached_data_rate(),
    {
        self.data_rate
    }

    /// Writes the full-scale range. The cache is left as it is.
    pub fn set_range(&mut self, range: AccelRange) -> (r: Result<(), I2C::Error>)
        ensures
            final(self).follows(old(self)),
            final(self).since(old(self)) == seq![
                writes(old(self).addr(), ACC_RANGE, range.encoding(), r is Ok),
            ],
    {
        self.write_byte(ACC_RANGE, range.encode())
    }

    /// Reads the full-scale range and caches it.
    pub fn read_range(&mut self) -> (r: Result<AccelRange, DeviceError<I2C::Error>>)
        ensures
            final(self).addr() == old(self).addr(),
            final(self).cached_bandwidth() == old(self).cached_bandwidth(),
            final(self).cached_data_rate() == old(self).cached_data_rate(),
            final(self).cached_range() == (if r is Ok {
                r->Ok_0
            } else {
                old(self).cached_range()
            }),
            old(self).log().is_prefix_of(final(self).log()),
            ({
                let t = final(self).since(old(self));
                let v = t[0].received()[0];
                &&& t.len() == 1
                &&& reads(t[0], old(self).addr(), ACC_RANGE, 1)
                &&& !t[0].ok() ==> (r is Err && r->Err_0 is Bus)
                &&& t[0].ok() ==> r == decode_result::<AccelRange, I2C::Error>(
                    AccelRange::decoding(v),
                    ACC_RANGE,
                    v,
                )
            }),
    {
        match self.read_byte(ACC_RANGE) {
            Ok(v) => match AccelRange::decode(v) {
                Some(g) => {
                    self.range = g;
                    Ok(g)
                },
                None => Err(DeviceError::UnrecognizedValue { register: ACC_RANGE, value: v }),
            },
            Err(e) => Err(DeviceError::Bus(e)),
        }
    }

    /// The range that the last successful read returned.
    pub fn get_range(&self) -> (r: AccelRange)
        ensures
            r == self.cached_range(),
    {
        self.range
    }

    /// Writes a pin's IO configuration to `io_conf`, then sets or clears the
    /// pin's bit `map_bit` of the shared map register. A failed transaction
    /// ends the sequence.
    fn configure_pin(
        &mut self,
        io_conf: u8,
        map_bit: u8,
        mode: Bmi088PinMode,
        behavior: Bmi088PinBehavior,
        active_high: bool,
        map_interrupt: bool,
    ) -> (r: Result<(), I2C::Error>)
        ensures
            final(self).follows(old(self)),
            configures_pin(
                final(self).since(old(self)),
                old(self).addr(),
                io_conf,
                pin_io_conf(mode, behavior, active_high),
                map_bit,
                map_interrupt,
                r is Ok,
            ),
    {
        let mut conf: u8 = 0;
        match mode {
            Bmi088PinMode::Input => conf = conf | 0b0001_0000,
            Bmi088PinMode::Output => conf = conf | 0b0000_1000,
            Bmi088PinMode::Disabled => {},
        }
        if let Bmi088PinBehavior::OpenDrain = behavior {
            conf = conf | 0b0000_0100;
        }
        if active_high {
            conf = conf | 0b0000_0010;
        }
        assert(conf == pin_io_conf(mode, behavior, active_high)) by {
            assert(0u8 | 0b0001_0000u8 == 0b0001_0000u8) by (bit_vector);
            assert(0u8 | 0b0000_1000u8 == 0b0000_1000u8) by (bit_vector);
            assert(forall|m: u8| #[trigger] (m | 0u8) == m) by (bit_vector);
            assert(forall|m: u8| #[trigger] (0u8 | m) == m) by (bit_vector);
        }
        let ghost start = *self;
        let first = self.write_byte(io_conf, conf);
        if let Err(e) = first {
            return Err(e);
        }
        let ghost middle = *self;
        let r = if map_interrupt {
            self.update_byte(INT1_INT2_MAP_DATA, 0xFF, map_bit)
        } else {
            self.update_byte(INT1_INT2_MAP_DATA, !map_bit, 0)
        };
        proof {
            lemma_set_or_clear(self.since(&middle)[0].received()[0], map_bit);
            assert(self.since(&start) =~= middle.since(&start) + self.since(&middle));
        }
        r
    }

    /// Configures interrupt pin 1 and routes data-ready to it, or away from
    /// it, in the map register it shares with pin 2.
    pub fn configure_int1_pin(
        &mut self,
        mode: Bmi088PinMode,
        behavior: Bmi088PinBehavior,
        active_high: bool,
        map_interrupt: bool,
    ) -> (r: Result<(), I2C::Error>)
        ensures
            final(self).follows(old(self)),
            configures_pin(
                final(self).since(old(self)),
                old(self).addr(),
                INT1_IO_CONF,
                pin_io_conf(mode, behavior, active_high),
                INT1_MAP_BIT,
                map_interrupt,
                r is Ok,
            ),
    {
        self.configure_pin(INT1_IO_CONF, INT1_MAP_BIT, mode, behavior, active_high, map_interrupt)
    }

    /// Configures interrupt pin 2 and routes data-ready to it, or away from
    /// it, in the map register it shares with pin 1.
    pub fn configure_int2_pin(
        &mut self,
        mode: Bmi088PinMode,
        behavior: Bmi088PinBehavior,
        active_high: bool,
        map_interrupt: bool,
    ) -> (r: Result<(), I2C::Error>)
        ensures
            final(self).follows(old(self)),
            configures_pin(
                final(self).since(old(self)),
                old(self).addr(),
                INT2_IO_CONF,
                pin_io_conf(mode, behavior, active_high),
                INT2_MAP_BIT,
                map_interrupt,
                r is Ok,
            ),
    {
        self.configure_pin(INT2_IO_CONF, INT2_MAP_BIT, mode, behavior, active_high, map_interrupt)
    }

    /// Suspends the sensor (0x03) or makes it active (0x00).
    pub fn set_suspended(&mut self, suspended: bool) -> (r: Result<(), I2C::Error>)
        ensures
            final(self).follows(old(self)),
            final(self).since(old(self)) == seq![
                writes(old(self).addr(), ACC_PWR_CONF, if suspended { 0x03 } else { 0x00 }, r is Ok),
            ],
    {
        let data: u8 = if suspended { 0x03 } else { 0x00 };
        self.write_byte(ACC_PWR_CONF, data)
    }

    /// Switches the sensor on (0x04) or off (0x00).
    pub fn set_on(&mut self, on: bool) -> (r: Result<(), I2C::Error>)
        ensures
            final(self).follows(old(self)),
            final(self).since(old(self)) == seq![
                writes(old(self).addr(), ACC_PWR_CTRL, if on { 0x04 } else { 0x00 }, r is Ok),
            ],
    {
        let data: u8 = if on { 0x04 } else { 0x00 };
        self.write_byte(ACC_PWR_CTRL, data)
    }

    /// Sends the soft-reset command.
    pub fn reset(&mut self) -> (r: Result<(), I2C::Error>)
        ensures
            final(self).follows(old(self)),
            final(self).since(old(self)) == seq![
                writes(old(self).addr(), ACC_SOFTRESET, 0xB6, r is Ok),
            ],
    {
        self.write_byte(ACC_SOFTRESET, 0xB6)
    }
}

} // verus!
