//! Configuration values and the error types of both devices.

use vstd::prelude::*;

verus! {

/// Accelerometer filter bandwidth, as oversampling of the output.
#[derive(Debug, Copy, Clone, PartialEq, Eq, Structural)]
pub enum AccelFilterBandwidth {
    /// Fourfold oversampling.
    OSR4,
    /// Twofold oversampling.
    OSR2,
    /// No oversampling.
    Normal,
}

impl AccelFilterBandwidth {
    /// The value's bits in its register field.
    pub open spec fn encoding(self) -> u8 {
        match self {
            AccelFilterBandwidth::OSR4 => 0x00,
            AccelFilterBandwidth::OSR2 => 0x01,
            AccelFilterBandwidth::Normal => 0x02,
        }
    }

    /// The value that the field bits `v` stand for, if any.
    pub open spec fn decoding(v: u8) -> Option<Self> {
        match v {
            0x00 => Some(AccelFilterBandwidth::OSR4),
            0x01 => Some(AccelFilterBandwidth::OSR2),
            0x02 => Some(AccelFilterBandwidth::Normal),
            _ => None,
        }
    }

    /// The value's bits in its register field.
    pub fn encode(self) -> (r: u8)
        ensures
            r == self.encoding(),
    {
        match self {
            AccelFilterBandwidth::OSR4 => 0x00,
            AccelFilterBandwidth::OSR2 => 0x01,
            AccelFilterBandwidth::Normal => 0x02,
        }
    }

    /// The value that the field bits `v` stand for; `None` for bits that
    /// name no value.
    pub fn decode(v: u8) -> (r: Option<Self>)
        ensures
            r == Self::decoding(v),
    {
        match v {
            0x00 => Some(AccelFilterBandwidth::OSR4),
            0x01 => Some(AccelFilterBandwidth::OSR2),
            0x02 => Some(AccelFilterBandwidth::Normal),
            _ => None,
        }
    }
}

/// Accelerometer output data rate.
#[derive(Debug, Copy, Clone, PartialEq, Eq, Structural)]
pub enum AccelDataRate {
    /// 12.5 Hz.
    Hz12_5,
    /// 25 Hz.
    Hz25,
    /// 50 Hz.
    Hz50,
    /// 100 Hz.
    Hz100,
    /// 200 Hz.
    Hz200,
    /// 400 Hz.
    Hz400,
    /// 800 Hz.
    Hz800,
    /// 1600 Hz.
    Hz1600,
}

impl AccelDataRate {
    /// The value's bits in its register field.
    pub open spec fn encoding(self) -> u8 {
        match self {
            AccelDataRate::Hz12_5 => 0x05,
            AccelDataRate::Hz25 => 0x06,
            AccelDataRate::Hz50 => 0x07,
            AccelDataRate::Hz100 => 0x08,
            AccelDataRate::Hz200 => 0x09,
            AccelDataRate::Hz400 => 0x0A,
            AccelDataRate::Hz800 => 0x0B,
            AccelDataRate::Hz1600 => 0x0C,
        }
    }

    /// The value that the field bits `v` stand for, if any.
    pub open spec fn decoding(v: u8) -> Option<Self> {
        match v {
            0x05 => Some(AccelDataRate::Hz12_5),
            0x06 => Some(AccelDataRate::Hz25),
            0x07 => Some(AccelDataRate::Hz50),
            0x08 => Some(AccelDataRate::Hz100),
            0x09 => Some(AccelDataRate::Hz200),
            0x0A => Some(AccelDataRate::Hz400),
            0x0B => Some(AccelDataRate::Hz800),
            0x0C => Some(AccelDataRate::Hz1600),
            _ => None,
        }
    }

    /// The value's bits in its register field.
    pub fn encode(self) -> (r: u8)
        ensures
            r == self.encoding(),
    {
        match self {
            AccelDataRate::Hz12_5 => 0x05,
            AccelDataRate::Hz25 => 0x06,
            AccelDataRate::Hz50 => 0x07,
            AccelDataRate::Hz100 => 0x08,
            AccelDataRate::Hz200 => 0x09,
            AccelDataRate::Hz400 => 0x0A,
            AccelDataRate::Hz800 => 0x0B,
            AccelDataRate::Hz1600 => 0x0C,
        }
    }

    /// The value that the field bits `v` stand for; `None` for bits that
    /// name no value.
    pub fn decode(v: u8) -> (r: Option<Self>)
        ensures
            r == Self::decoding(v),
    {
        match v {
            0x05 => Some(AccelDataRate::Hz12_5),
            0x06 => Some(AccelDataRate::Hz25),
            0x07 => Some(AccelDataRate::Hz50),
            0x08 => Some(AccelDataRate::Hz100),
            0x09 => Some(AccelDataRate::Hz200),
            0x0A => Some(AccelDataRate::Hz400),
            0x0B => Some(AccelDataRate::Hz800),
            0x0C => Some(AccelDataRate::Hz1600),
            _ => None,
        }
    }
}

/// Accelerometer full-scale range.
#[derive(Debug, Copy, Clone, PartialEq, Eq, Structural)]
pub enum AccelRange {
    /// Plus or minus 3 g.
    G3,
    /// Plus or minus 6 g.
    G6,
    /// Plus or minus 12 g.
    G12,
    /// Plus or minus 24 g.
    G24,
}

impl AccelRange {
    /// The value's bits in its register field.
    pub open spec fn encoding(self) -> u8 {
        match self {
            AccelRange::G3 => 0x00,
            AccelRange::G6 => 0x01,
            AccelRange::G12 => 0x02,
            AccelRange::G24 => 0x03,
        }
    }

    /// The value that the field bits `v` stand for, if any.
    pub open spec fn decoding(v: u8) -> Option<Self> {
        match v {
            0x00 => Some(AccelRange::G3),
            0x01 => Some(AccelRange::G6),
            0x02 => Some(AccelRange::G12),
            0x03 => Some(AccelRange::G24),
            _ => None,
        }
    }

    /// The value's bits in its register field.
    pub fn encode(self) -> (r: u8)
        ensures
            r == self.encoding(),
    {
        match self {
            AccelRange::G3 => 0x00,
            AccelRange::G6 => 0x01,
            AccelRange::G12 => 0x02,
            AccelRange::G24 => 0x03,
        }
    }

    /// The value that the field bits `v` stand for; `None` for bits that
    /// name no value.
    pub fn decode(v: u8) -> (r: Option<Self>)
        ensures
            r == Self::decoding(v),
    {
        match v {
            0x00 => Some(AccelRange::G3),
            0x01 => Some(AccelRange::G6),
            0x02 => Some(AccelRange::G12),
            0x03 => Some(AccelRange::G24),
            _ => None,
        }
    }
}

/// Gyroscope full-scale range.
#[derive(Debug, Copy, Clone, PartialEq, Eq, Structural)]
pub enum GyroRange {
    /// Plus or minus 2000 degrees per second.
    Deg2000,
    /// Plus or minus 1000 degrees per second.
    Deg1000,
    /// Plus or minus 500 degrees per second.
    Deg500,
    /// Plus or minus 250 degrees per second.
    Deg250,
    /// Plus or minus 125 degrees per second.
    Deg125,
}

impl GyroRange {
    /// The value's bits in its register field.
    pub open spec fn encoding(self) -> u8 {
        match self {
            GyroRange::Deg2000 => 0x00,
            GyroRange::Deg1000 => 0x01,
            GyroRange::Deg500 => 0x02,
            GyroRange::Deg250 => 0x03,
            GyroRange::Deg125 => 0x04,
        }
    }

    /// The value that the field bits `v` stand for, if any.
    pub open spec fn decoding(v: u8) -> Option<Self> {
        match v {
            0x00 => Some(GyroRange::Deg2000),
            0x01 => Some(GyroRange::Deg1000),
            0x02 => Some(GyroRange::Deg500),
            0x03 => Some(GyroRange::Deg250),
            0x04 => Some(GyroRange::Deg125),
            _ => None,
        }
    }

    /// The value's bits in its register field.
    pub fn encode(self) -> (r: u8)
        ensures
            r == self.encoding(),
    {
        match self {
            GyroRange::Deg2000 => 0x00,
            GyroRange::Deg1000 => 0x01,
            GyroRange::Deg500 => 0x02,
            GyroRange::Deg250 => 0x03,
            GyroRange::Deg125 => 0x04,
        }
    }

    /// The value that the field bits `v` stand for; `None` for bits that
    /// name no value.
    pub fn decode(v: u8) -> (r: Option<Self>)
        ensures
            r == Self::decoding(v),
    {
        match v {
            0x00 => Some(GyroRange::Deg2000),
            0x01 => Some(GyroRange::Deg1000),
            0x02 => Some(GyroRange::Deg500),
            0x03 => Some(GyroRange::Deg250),
            0x04 => Some(GyroRange::Deg125),
            _ => None,
        }
    }
}

/// Gyroscope output data rate paired with its filter cut-off.
#[derive(Debug, Copy, Clone, PartialEq, Eq, Structural)]
pub enum GyroBandwidth {
    /// 2000 Hz data rate, 532 Hz filter.
    Data2000Filter532,
    /// 2000 Hz data rate, 230 Hz filter.
    Data2000Filter230,
    /// 1000 Hz data rate, 116 Hz filter.
    Data1000Filter116,
    /// 400 Hz data rate, 47 Hz filter.
    Data400Filter47,
    /// 200 Hz data rate, 23 Hz filter.
    Data200Filter23,
    /// 100 Hz data rate, 12 Hz filter.
    Data100Filter12,
    /// 200 Hz data rate, 64 Hz filter.
    Data200Filter64,
    /// 100 Hz data rate, 32 Hz filter.
    Data100Filter32,
}

impl GyroBandwidth {
    /// The value's bits in its register field.
    pub open spec fn encoding(self) -> u8 {
        match self {
            GyroBandwidth::Data2000Filter532 => 0x00,
            GyroBandwidth::Data2000Filter230 => 0x01,
            GyroBandwidth::Data1000Filter116 => 0x02,
            GyroBandwidth::Data400Filter47 => 0x03,
            GyroBandwidth::Data200Filter23 => 0x04,
            GyroBandwidth::Data100Filter12 => 0x05,
            GyroBandwidth::Data200Filter64 => 0x06,
            GyroBandwidth::Data100Filter32 => 0x07,
        }
    }

    /// The value that the field bits `v` stand for, if any.
    pub open spec fn decoding(v: u8) -> Option<Self> {
        match v {
            0x00 => Some(GyroBandwidth::Data2000Filter532),
            0x01 => Some(GyroBandwidth::Data2000Filter230),
            0x02 => Some(GyroBandwidth::Data1000Filter116),
            0x03 => Some(GyroBandwidth::Data400Filter47),
            0x04 => Some(GyroBandwidth::Data200Filter23),
            0x05 => Some(GyroBandwidth::Data100Filter12),
            0x06 => Some(GyroBandwidth::Data200Filter64),
            0x07 => Some(GyroBandwidth::Data100Filter32),
            _ => None,
        }
    }

    /// The value's bits in its register field.
    pub fn encode(self) -> (r: u8)
        ensures
            r == self.encoding(),
    {
        match self {
            GyroBandwidth::Data2000Filter532 => 0x00,
            GyroBandwidth::Data2000Filter230 => 0x01,
            GyroBandwidth::Data1000Filter116 => 0x02,
            GyroBandwidth::Data400Filter47 => 0x03,
            GyroBandwidth::Data200Filter23 => 0x04,
            GyroBandwidth::Data100Filter12 => 0x05,
            GyroBandwidth::Data200Filter64 => 0x06,
            GyroBandwidth::Data100Filter32 => 0x07,
        }
    }

    /// The value that the field bits `v` stand for; `None` for bits that
    /// name no value.
    pub fn decode(v: u8) -> (r: Option<Self>)
        ensures
            r == Self::decoding(v),
    {
        match v {
            0x00 => Some(GyroBandwidth::Data2000Filter532),
            0x01 => Some(GyroBandwidth::Data2000Filter230),
            0x02 => Some(GyroBandwidth::Data1000Filter116),
            0x03 => Some(GyroBandwidth::Data400Filter47),
            0x04 => Some(GyroBandwidth::Data200Filter23),
            0x05 => Some(GyroBandwidth::Data100Filter12),
            0x06 => Some(GyroBandwidth::Data200Filter64),
            0x07 => Some(GyroBandwidth::Data100Filter32),
            _ => None,
        }
    }
}
/// Electrical role of an accelerometer interrupt pin.
#[derive(Debug, Copy, Clone, PartialEq, Eq, Structural)]
pub enum Bmi088PinMode {
    /// The pin is an input.
    Input,
    /// The pin drives the interrupt signal.
    Output,
    /// The pin is neither.
    Disabled,
}

/// Output driver of an interrupt pin.
#[derive(Debug, Copy, Clone, PartialEq, Eq, Structural)]
pub enum Bmi088PinBehavior {
    /// Drives both levels.
    PushPull,
    /// Drives the active level only.
    OpenDrain,
}

/// The fault flags that the accelerometer reports about itself.
#[derive(Debug, Copy, Clone, PartialEq, Eq, Structural)]
pub struct AccelError {
    /// An invalid configuration was written (bits 2 and 3 of the error register).
    pub configuration_error: bool,
    /// The sensor hit a fatal error (bit 1 of the error register).
    pub fatal_error: bool,
}

impl AccelError {
    /// The flags that the error register byte `status` holds.
    pub open spec fn from_status(status: u8) -> AccelError {
        AccelError {
            configuration_error: status & 0x0C != 0,
            fatal_error: status & 0x02 != 0,
        }
    }
}

/// Failure of an operation that decodes a register.
#[derive(Debug, Copy, Clone, PartialEq, Eq)]
pub enum DeviceError<E> {
    /// The bus failed; its error is handed on unchanged.
    Bus(E),
    /// The register held bits that name no value of the field read from it.
    UnrecognizedValue {
        /// Address of the register.
        register: u8,
        /// The byte read from it.
        value: u8,
    },
}

/// What a decoding read returns once the bus delivered `value` from
/// `register` and the field it holds decoded to `decoded`.
pub open spec fn decode_result<T, E>(decoded: Option<T>, register: u8, value: u8) -> Result<
    T,
    DeviceError<E>,
> {
    match decoded {
        Some(x) => Ok(x),
        None => Err(DeviceError::UnrecognizedValue { register, value }),
    }
}

/// Decoding inverts encoding, and a decoded value encodes back to the bits
/// it came from, for every configuration value.
pub proof fn lemma_codecs_round_trip(
    bandwidth: AccelFilterBandwidth,
    rate: AccelDataRate,
    range: AccelRange,
    gyro_range: GyroRange,
    gyro_bandwidth: GyroBandwidth,
    v: u8,
)
    ensures
        AccelFilterBandwidth::decoding(bandwidth.encoding()) == Some(bandwidth),
        AccelDataRate::decoding(rate.encoding()) == Some(rate),
        AccelRange::decoding(range.encoding()) == Some(range),
        GyroRange::decoding(gyro_range.encoding()) == Some(gyro_range),
        GyroBandwidth::decoding(gyro_bandwidth.encoding()) == Some(gyro_bandwidth),
        AccelFilterBandwidth::decoding(v) matches Some(d) ==> d.encoding() == v,
        AccelDataRate::decoding(v) matches Some(d) ==> d.encoding() == v,
        AccelRange::decoding(v) matches Some(d) ==> d.encoding() == v,
        GyroRange::decoding(v) matches Some(d) ==> d.encoding() == v,
        GyroBandwidth::decoding(v) matches Some(d) ==> d.encoding() == v,
{
}

} // verus!
