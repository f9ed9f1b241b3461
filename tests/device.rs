use std::cell::RefCell;
use std::rc::Rc;

use bmi088::{
    AccelDataRate, AccelError, AccelFilterBandwidth, AccelRange, Bmi088Accelerometer,
    Bmi088Gyroscope, Bmi088PinBehavior, Bmi088PinMode, DeviceError, GyroBandwidth, GyroRange,
    I2cBus,
};

#[derive(Debug, Clone, Copy, PartialEq, Eq)]
struct BusFault;

#[derive(Debug, Clone, PartialEq, Eq)]
enum Call {
    Write(u8, Vec<u8>),
    WriteRead(u8, Vec<u8>, usize),
}

struct State {
    regs: [u8; 256],
    calls: Vec<Call>,
    fail_call: Option<usize>,
}

/// A register file behind a bus; the call with index `fail_call` fails.
#[derive(Clone)]
struct MockBus(Rc<RefCell<State>>);

impl MockBus {
    fn new() -> MockBus {
        MockBus(Rc::new(RefCell::new(State { regs: [0; 256], calls: Vec::new(), fail_call: None })))
    }
    fn set(&self, reg: u8, value: u8) {
        self.0.borrow_mut().regs[reg as usize] = value;
    }
    fn get(&self, reg: u8) -> u8 {
        self.0.borrow().regs[reg as usize]
    }
    fn fail_at(&self, call: usize) {
        self.0.borrow_mut().fail_call = Some(call);
    }
    fn calls(&self) -> Vec<Call> {
        self.0.borrow().calls.clone()
    }
}

impl I2cBus for MockBus {
    type Error = BusFault;

    fn write(&mut self, address: u8, bytes: &[u8]) -> Result<(), BusFault> {
        let mut s = self.0.borrow_mut();
        let n = s.calls.len();
        s.calls.push(Call::Write(address, bytes.to_vec()));
        if s.fail_call == Some(n) {
            return Err(BusFault);
        }
        let start = bytes[0] as usize;
        for (i, b) in bytes[1..].iter().enumerate() {
            s.regs[start + i] = *b;
        }
        Ok(())
    }

    fn write_read(&mut self, address: u8, bytes: &[u8], buffer: &mut [u8]) -> Result<(), BusFault> {
        let mut s = self.0.borrow_mut();
        let n = s.calls.len();
        s.calls.push(Call::WriteRead(address, bytes.to_vec(), buffer.len()));
        if s.fail_call == Some(n) {
            return Err(BusFault);
        }
        let start = bytes[0] as usize;
        for (i, b) in buffer.iter_mut().enumerate() {
            *b = s.regs[start + i];
        }
        Ok(())
    }
}

const ACC: u8 = 0x18;
const GYRO: u8 = 0x68;

fn accel() -> (MockBus, Bmi088Accelerometer<MockBus>) {
    let bus = MockBus::new();
    (bus.clone(), Bmi088Accelerometer::new(bus, ACC))
}

fn gyro() -> (MockBus, Bmi088Gyroscope<MockBus>) {
    let bus = MockBus::new();
    (bus.clone(), Bmi088Gyroscope::new(bus, GYRO))
}

const ACCEL_BANDWIDTHS: [AccelFilterBandwidth; 3] =
    [AccelFilterBandwidth::OSR4, AccelFilterBandwidth::OSR2, AccelFilterBandwidth::Normal];
const ACCEL_RATES: [AccelDataRate; 8] = [
    AccelDataRate::Hz12_5,
    AccelDataRate::Hz25,
    AccelDataRate::Hz50,
    AccelDataRate::Hz100,
    AccelDataRate::Hz200,
    AccelDataRate::Hz400,
    AccelDataRate::Hz800,
    AccelDataRate::Hz1600,
];
const ACCEL_RANGES: [AccelRange; 4] = [AccelRange::G3, AccelRange::G6, AccelRange::G12, AccelRange::G24];
const GYRO_RANGES: [GyroRange; 5] = [
    GyroRange::Deg2000,
    GyroRange::Deg1000,
    GyroRange::Deg500,
    GyroRange::Deg250,
    GyroRange::Deg125,
];
const GYRO_BANDWIDTHS: [GyroBandwidth; 8] = [
    GyroBandwidth::Data2000Filter532,
    GyroBandwidth::Data2000Filter230,
    GyroBandwidth::Data1000Filter116,
    GyroBandwidth::Data400Filter47,
    GyroBandwidth::Data200Filter23,
    GyroBandwidth::Data100Filter12,
    GyroBandwidth::Data200Filter64,
    GyroBandwidth::Data100Filter32,
];

#[test]
fn read_errors_decodes_flags() {
    let (bus, mut acc) = accel();
    bus.set(0x02, 0b0000_0010);
    assert_eq!(acc.read_errors(), Ok(AccelError { fatal_error: true, configuration_error: false }));
    bus.set(0x02, 0b0000_1100);
    assert_eq!(acc.read_errors(), Ok(AccelError { fatal_error: false, configuration_error: true }));
    bus.set(0x02, 0b0000_0110);
    assert_eq!(acc.read_errors(), Ok(AccelError { fatal_error: true, configuration_error: true }));
    bus.set(0x02, 0b1111_0001);
    assert_eq!(acc.read_errors(), Ok(AccelError { fatal_error: false, configuration_error: false }));
    assert_eq!(bus.calls()[0], Call::WriteRead(ACC, vec![0x02], 1));
}

#[test]
fn is_data_ready_masks_bit7() {
    let (bus, mut acc) = accel();
    bus.set(0x03, 0x80);
    assert_eq!(acc.is_data_ready(), Ok(true));
    bus.set(0x03, 0x7F);
    assert_eq!(acc.is_data_ready(), Ok(false));
    assert_eq!(bus.calls()[0], Call::WriteRead(ACC, vec![0x03], 1));
}

#[test]
fn data_ready_interrupt_reads_its_own_register() {
    let (bus, mut acc) = accel();
    bus.set(0x03, 0x00);
    bus.set(0x1D, 0x80);
    assert_eq!(acc.data_ready_interrupt(), Ok(true));
    bus.set(0x1D, 0x7F);
    assert_eq!(acc.data_ready_interrupt(), Ok(false));
    let (gbus, mut gy) = gyro();
    gbus.set(0x0A, 0x81);
    assert_eq!(gy.data_ready_interrupt(), Ok(true));
    gbus.set(0x0A, 0x01);
    assert_eq!(gy.data_ready_interrupt(), Ok(false));
    assert_eq!(gbus.calls()[0], Call::WriteRead(GYRO, vec![0x0A], 1));
}

#[test]
fn gyro_bandwidth_decode_ignores_bit7() {
    let (bus, mut gy) = gyro();
    bus.set(0x10, 0x85);
    let high = gy.get_bandwidth();
    bus.set(0x10, 0x05);
    let low = gy.get_bandwidth();
    assert_eq!(high, low);
    assert_eq!(high, Ok(GyroBandwidth::Data100Filter12));
}

#[test]
fn out_of_range_value_is_reported() {
    let (bus, mut acc) = accel();
    bus.set(0x41, 0x04);
    assert_eq!(acc.read_range(), Err(DeviceError::UnrecognizedValue { register: 0x41, value: 0x04 }));
    assert_eq!(acc.get_range(), AccelRange::G6);
    bus.set(0x40, 0b0011_1000);
    assert_eq!(
        acc.read_bandwidth(),
        Err(DeviceError::UnrecognizedValue { register: 0x40, value: 0b0011_1000 })
    );
    bus.set(0x40, 0b0010_0100);
    assert_eq!(
        acc.read_data_rate(),
        Err(DeviceError::UnrecognizedValue { register: 0x40, value: 0b0010_0100 })
    );
    let (gbus, mut gy) = gyro();
    gbus.set(0x0F, 0x05);
    assert_eq!(gy.get_range(), Err(DeviceError::UnrecognizedValue { register: 0x0F, value: 0x05 }));
    gbus.set(0x10, 0x88);
    assert_eq!(
        gy.get_bandwidth(),
        Err(DeviceError::UnrecognizedValue { register: 0x10, value: 0x88 })
    );
}

#[test]
fn bandwidth_round_trips_and_keeps_other_bits() {
    for preset in [0x00u8, 0xFF, 0b1000_0101, 0b0111_1010] {
        for bw in ACCEL_BANDWIDTHS {
            let (bus, mut acc) = accel();
            bus.set(0x40, preset);
            acc.set_bandwidth(bw).unwrap();
            assert_eq!(bus.get(0x40) & 0b1000_1111, preset & 0b1000_1111);
            assert_eq!(acc.read_bandwidth(), Ok(bw));
            assert_eq!(acc.get_bandwidth(), bw);
        }
    }
}

#[test]
fn data_rate_round_trips_and_keeps_other_bits() {
    for preset in [0x00u8, 0xFF, 0b1010_0011, 0b0101_1100] {
        for rate in ACCEL_RATES {
            let (bus, mut acc) = accel();
            bus.set(0x40, preset);
            acc.set_data_rate(rate).unwrap();
            assert_eq!(bus.get(0x40) & 0b1111_0000, preset & 0b1111_0000);
            assert_eq!(acc.read_data_rate(), Ok(rate));
            assert_eq!(acc.get_data_rate(), rate);
        }
    }
}

#[test]
fn bandwidth_and_data_rate_share_the_register() {
    let (bus, mut acc) = accel();
    bus.set(0x40, 0xA0);
    acc.set_data_rate(AccelDataRate::Hz1600).unwrap();
    acc.set_bandwidth(AccelFilterBandwidth::OSR2).unwrap();
    assert_eq!(bus.get(0x40), 0b1001_1100);
    assert_eq!(acc.read_data_rate(), Ok(AccelDataRate::Hz1600));
    assert_eq!(acc.read_bandwidth(), Ok(AccelFilterBandwidth::OSR2));
}

#[test]
fn ranges_round_trip() {
    for range in ACCEL_RANGES {
        let (bus, mut acc) = accel();
        acc.set_range(range).unwrap();
        assert_eq!(bus.get(0x41), range.encode());
        assert_eq!(acc.read_range(), Ok(range));
        assert_eq!(acc.get_range(), range);
    }
    for range in GYRO_RANGES {
        let (bus, mut gy) = gyro();
        gy.set_range(range).unwrap();
        assert_eq!(bus.get(0x0F), range.encode());
        assert_eq!(gy.get_range(), Ok(range));
    }
    for bw in GYRO_BANDWIDTHS {
        let (bus, mut gy) = gyro();
        gy.set_bandwidth(bw).unwrap();
        assert_eq!(bus.get(0x10), bw.encode());
        bus.set(0x10, bus.get(0x10) | 0x80);
        assert_eq!(gy.get_bandwidth(), Ok(bw));
    }
}

#[test]
fn encodings_match_register_values() {
    assert_eq!(AccelFilterBandwidth::Normal.encode(), 0x02);
    assert_eq!(AccelDataRate::Hz12_5.encode(), 0x05);
    assert_eq!(AccelDataRate::Hz1600.encode(), 0x0C);
    assert_eq!(AccelRange::G24.encode(), 0x03);
    assert_eq!(GyroRange::Deg125.encode(), 0x04);
    assert_eq!(GyroBandwidth::Data100Filter32.encode(), 0x07);
    assert_eq!(AccelDataRate::decode(0x04), None);
    assert_eq!(AccelDataRate::decode(0x0D), None);
    assert_eq!(AccelRange::decode(0x02), Some(AccelRange::G12));
    assert_eq!(GyroBandwidth::decode(0x08), None);
    assert_eq!(AccelFilterBandwidth::decode(0x03), None);
}

fn axis_bytes(v: i16) -> [u8; 2] {
    [(v & 0xFF) as u8, ((v >> 8) & 0xFF) as u8]
}

#[test]
fn axis_values_round_trip() {
    let values: [i16; 9] = [0, 1, -1, 255, 256, -256, 12345, i16::MAX, i16::MIN];
    for chunk in values.windows(3) {
        let (bus, mut acc) = accel();
        let (gbus, mut gy) = gyro();
        for (i, v) in chunk.iter().enumerate() {
            let [lo, hi] = axis_bytes(*v);
            bus.set(0x12 + 2 * i as u8, lo);
            bus.set(0x13 + 2 * i as u8, hi);
            gbus.set(0x02 + 2 * i as u8, lo);
            gbus.set(0x03 + 2 * i as u8, hi);
        }
        assert_eq!(acc.read_data(), Ok((chunk[0], chunk[1], chunk[2])));
        assert_eq!(gy.read_data(), Ok((chunk[0], chunk[1], chunk[2])));
        assert_eq!(bus.calls()[0], Call::WriteRead(ACC, vec![0x12], 6));
        assert_eq!(gbus.calls()[0], Call::WriteRead(GYRO, vec![0x02], 6));
    }
}

#[test]
fn axis_sign_bit_is_honoured() {
    let (bus, mut acc) = accel();
    bus.set(0x12, 0x00);
    bus.set(0x13, 0x80);
    bus.set(0x14, 0xFF);
    bus.set(0x15, 0xFF);
    bus.set(0x16, 0x34);
    bus.set(0x17, 0x12);
    assert_eq!(acc.read_data(), Ok((-32768, -1, 0x1234)));
}

#[test]
fn temperature_is_most_significant_byte_first() {
    let (bus, mut acc) = accel();
    bus.set(0x22, 0x12);
    bus.set(0x23, 0x34);
    assert_eq!(acc.read_temperature(), Ok(0x1234));
    bus.set(0x22, 0xFF);
    bus.set(0x23, 0xFE);
    assert_eq!(acc.read_temperature(), Ok(-2));
    assert_eq!(bus.calls()[0], Call::WriteRead(ACC, vec![0x22], 2));
}

#[test]
fn chip_ids() {
    let (bus, mut acc) = accel();
    bus.set(0x00, 0x1E);
    assert_eq!(acc.read_chip_id(), Ok(0x1E));
    let (gbus, mut gy) = gyro();
    gbus.set(0x00, 0x0F);
    assert_eq!(gy.read_chip_id(), Ok(0x0F));
}

#[test]
fn accel_pin_maps_are_independent() {
    let (bus, mut acc) = accel();
    bus.set(0x58, 0b0100_0000);
    acc.configure_int1_pin(Bmi088PinMode::Output, Bmi088PinBehavior::PushPull, true, true).unwrap();
    assert_eq!(bus.get(0x58), 0b0100_0100);
    acc.configure_int1_pin(Bmi088PinMode::Output, Bmi088PinBehavior::PushPull, true, false).unwrap();
    assert_eq!(bus.get(0x58), 0b0100_0000);

    let (bus, mut acc) = accel();
    bus.set(0x58, 0b0000_0100);
    acc.configure_int2_pin(Bmi088PinMode::Input, Bmi088PinBehavior::OpenDrain, false, true).unwrap();
    assert_eq!(bus.get(0x58), 0b0100_0100);
    acc.configure_int2_pin(Bmi088PinMode::Input, Bmi088PinBehavior::OpenDrain, false, false).unwrap();
    assert_eq!(bus.get(0x58), 0b0000_0100);
}

#[test]
fn accel_pin_io_configuration() {
    let (bus, mut acc) = accel();
    acc.configure_int1_pin(Bmi088PinMode::Input, Bmi088PinBehavior::OpenDrain, true, false).unwrap();
    assert_eq!(bus.get(0x53), 0b0001_0110);
    acc.configure_int2_pin(Bmi088PinMode::Output, Bmi088PinBehavior::PushPull, false, false).unwrap();
    assert_eq!(bus.get(0x53), 0b0000_1000);
    acc.configure_int1_pin(Bmi088PinMode::Disabled, Bmi088PinBehavior::PushPull, false, true).unwrap();
    assert_eq!(bus.get(0x53), 0);
    assert_eq!(
        bus.calls()[0..3].to_vec(),
        vec![
            Call::Write(ACC, vec![0x53, 0b0001_0110]),
            Call::WriteRead(ACC, vec![0x58], 1),
            Call::Write(ACC, vec![0x58, 0]),
        ]
    );
}

#[test]
fn gyro_pins_are_independent() {
    let (bus, mut gy) = gyro();
    bus.set(0x16, 0b0000_1100);
    bus.set(0x18, 0b1000_0000);
    gy.configure_int3_pin(Bmi088PinBehavior::OpenDrain, true, true).unwrap();
    assert_eq!(bus.get(0x15), 0x80);
    assert_eq!(bus.get(0x16), 0b0000_1111);
    assert_eq!(bus.get(0x18), 0b1000_0001);
    gy.configure_int3_pin(Bmi088PinBehavior::PushPull, false, false).unwrap();
    assert_eq!(bus.get(0x16), 0b0000_1100);
    assert_eq!(bus.get(0x18), 0b1000_0000);

    let (bus, mut gy) = gyro();
    bus.set(0x16, 0b0000_0011);
    bus.set(0x18, 0b0000_0001);
    gy.configure_int4_pin(Bmi088PinBehavior::OpenDrain, true, true).unwrap();
    assert_eq!(bus.get(0x16), 0b0000_1111);
    assert_eq!(bus.get(0x18), 0b1000_0001);
    gy.configure_int4_pin(Bmi088PinBehavior::PushPull, false, false).unwrap();
    assert_eq!(bus.get(0x16), 0b0000_0011);
    assert_eq!(bus.get(0x18), 0b0000_0001);
    assert_eq!(bus.calls().len(), 10);
}

#[test]
fn first_failure_stops_the_sequence() {
    let (bus, mut acc) = accel();
    bus.fail_at(0);
    assert_eq!(acc.set_bandwidth(AccelFilterBandwidth::OSR2), Err(BusFault));
    assert_eq!(bus.calls().len(), 1);

    let (bus, mut acc) = accel();
    bus.fail_at(0);
    assert_eq!(acc.set_data_rate(AccelDataRate::Hz50), Err(BusFault));
    assert_eq!(bus.calls().len(), 1);

    let (bus, mut acc) = accel();
    bus.fail_at(0);
    assert_eq!(acc.read_bandwidth(), Err(DeviceError::Bus(BusFault)));
    assert_eq!(bus.calls().len(), 1);
    assert_eq!(acc.get_bandwidth(), AccelFilterBandwidth::Normal);

    let (bus, mut acc) = accel();
    bus.fail_at(0);
    let r = acc.configure_int1_pin(Bmi088PinMode::Output, Bmi088PinBehavior::PushPull, true, true);
    assert_eq!(r, Err(BusFault));
    assert_eq!(bus.calls().len(), 1);

    let (bus, mut acc) = accel();
    bus.fail_at(1);
    let r = acc.configure_int2_pin(Bmi088PinMode::Output, Bmi088PinBehavior::PushPull, true, true);
    assert_eq!(r, Err(BusFault));
    assert_eq!(bus.calls().len(), 2);

    let (bus, mut gy) = gyro();
    bus.fail_at(0);
    assert_eq!(gy.configure_int3_pin(Bmi088PinBehavior::OpenDrain, true, true), Err(BusFault));
    assert_eq!(bus.calls().len(), 1);

    for fail in 1..5 {
        let (bus, mut gy) = gyro();
        bus.fail_at(fail);
        assert_eq!(gy.configure_int4_pin(Bmi088PinBehavior::OpenDrain, true, true), Err(BusFault));
        assert_eq!(bus.calls().len(), fail + 1);
    }
}

#[test]
fn bus_errors_are_handed_on() {
    let (bus, mut acc) = accel();
    bus.fail_at(0);
    assert_eq!(acc.read_chip_id(), Err(BusFault));
    let (bus, mut acc) = accel();
    bus.fail_at(0);
    assert_eq!(acc.read_range(), Err(DeviceError::Bus(BusFault)));
    let (bus, mut gy) = gyro();
    bus.fail_at(0);
    assert_eq!(gy.get_range(), Err(DeviceError::Bus(BusFault)));
    let (bus, mut gy) = gyro();
    bus.fail_at(0);
    assert_eq!(gy.read_data(), Err(BusFault));
}

#[test]
fn caches_follow_reads_not_writes() {
    let (bus, mut acc) = accel();
    assert_eq!(acc.get_bandwidth(), AccelFilterBandwidth::Normal);
    assert_eq!(acc.get_data_rate(), AccelDataRate::Hz100);
    assert_eq!(acc.get_range(), AccelRange::G6);
    bus.set(0x40, 0b1000_1000);
    acc.set_range(AccelRange::G24).unwrap();
    acc.set_bandwidth(AccelFilterBandwidth::OSR4).unwrap();
    assert_eq!(acc.get_range(), AccelRange::G6);
    assert_eq!(acc.get_bandwidth(), AccelFilterBandwidth::Normal);
    assert_eq!(acc.read_range(), Ok(AccelRange::G24));
    assert_eq!(acc.get_range(), AccelRange::G24);
    assert_eq!(acc.read_bandwidth(), Ok(AccelFilterBandwidth::OSR4));
    assert_eq!(acc.get_bandwidth(), AccelFilterBandwidth::OSR4);
}

#[test]
fn power_and_reset_commands() {
    let (bus, mut acc) = accel();
    acc.set_suspended(true).unwrap();
    assert_eq!(bus.get(0x7C), 0x03);
    acc.set_suspended(false).unwrap();
    assert_eq!(bus.get(0x7C), 0x00);
    acc.set_on(true).unwrap();
    assert_eq!(bus.get(0x7D), 0x04);
    acc.set_on(false).unwrap();
    assert_eq!(bus.get(0x7D), 0x00);
    acc.reset().unwrap();
    assert_eq!(bus.calls().last(), Some(&Call::Write(ACC, vec![0x7E, 0xB6])));

    let (gbus, mut gy) = gyro();
    gy.set_on(false).unwrap();
    assert_eq!(gbus.get(0x11), 0x80);
    gy.set_on(true).unwrap();
    assert_eq!(gbus.get(0x11), 0x00);
    gy.reset().unwrap();
    assert_eq!(gbus.calls().last(), Some(&Call::Write(GYRO, vec![0x14, 0xB6])));
}
