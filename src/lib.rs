//! Register-level driver for the BMI088 inertial measurement unit: one
//! accelerometer and one gyroscope, each reached at its own address over a
//! two-wire bus.

pub mod bus;
pub mod acc;
pub mod config;
pub mod gyro;

pub use acc::Bmi088Accelerometer;
pub use gyro::Bmi088Gyroscope;
pub use bus::{I2cBus, RegisterPort, Transfer};
pub use config::{
    AccelDataRate, AccelError, AccelFilterBandwidth, AccelRange, Bmi088PinBehavior,
    Bmi088PinMode, DeviceError, GyroBandwidth, GyroRange,
};
