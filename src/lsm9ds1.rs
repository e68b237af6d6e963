//! Settings of the LSM9DS1 inertial module (accelerometer, gyroscope,
//! magnetometer).
use vstd::prelude::*;

verus! {

/// Accelerometer settings
#[derive(Clone, Copy, Debug, PartialEq, Eq, Structural)]
pub struct AccelSettings {
    /// Whether the sensor is on
    pub enabled: bool,
    /// accel scale can be 2, 4, 8, or 16
    pub scale: u16,
    /// accel sample rate can be 1-6
    /// 1 = 10 Hz    4 = 238 Hz
    /// 2 = 50 Hz    5 = 476 Hz
    /// 3 = 119 Hz   6 = 952 Hz
    pub sample_rate: u8,
    /// X axis output enabled
    pub enable_x: bool,
    /// Y axis output enabled
    pub enable_y: bool,
    /// Z axis output enabled
    pub enable_z: bool,
    /// Accel cutoff freqeuncy can be any value between -1 - 3.
    /// -1 = bandwidth determined by sample rate
    /// 0 = 408 Hz   2 = 105 Hz
    /// 1 = 211 Hz   3 = 50 Hz
    pub bandwidth: i8,
    /// High-resolution mode
    pub high_res_enable: bool,
    /// accelHighResBandwidth can be any value between 0-3
    /// LP cutoff is set to a factor of sample rate
    /// 0 = ODR/50    2 = ODR/9
    /// 1 = ODR/100   3 = ODR/400
    pub high_res_bandwidth: u8,
}

/// Gyroscope settings
#[derive(Clone, Copy, Debug, PartialEq, Eq, Structural)]
pub struct GyroSettings {
    /// Whether the sensor is on
    pub enabled: bool,
    /// gyro scale can be 245, 500, or 2000
    pub scale: u16,
    /// gyro sample rate: value between 1-6
    /// 1 = 14.9    4 = 238
    /// 2 = 59.5    5 = 476
    /// 3 = 119     6 = 952
    pub sample_rate: u8,
    /// gyro cutoff frequency: value between 0-3
    /// Actual value of cutoff frequency depends
    /// on sample rate.
    pub bandwidth: u8,
    /// Low-power mode
    pub low_power_enable: bool,
    /// High-pass filter enabled
    pub hpf_enable: bool,
    ///  Gyro HPF cutoff frequency: value between 0-9
    /// Actual value depends on sample rate. Only applies
    /// if gyroHPFEnable is true.
    pub hpf_cutoff: u8,
    /// Invert the X axis
    pub flip_x: bool,
    /// Invert the Y axis
    pub flip_y: bool,
    /// Invert the Z axis
    pub flip_z: bool,
    /// Axis orientation selection
    pub orientation: u8,
    /// X axis output enabled
    pub enable_x: bool,
    /// Y axis output enabled
    pub enable_y: bool,
    /// Z axis output enabled
    pub enable_z: bool,
    /// Latch interrupt requests
    pub latch_interrupt: bool,
}

/// Magnetometer settings
#[derive(Clone, Copy, Debug, PartialEq, Eq, Structural)]
pub struct MagSettings {
    /// Whether the sensor is on
    pub enabled: bool,
    /// mag scale can be 4, 8, 12, or 16
    pub scale: u8,
    ///mag data rate can be 0-7
    /// 0 = 0.625 Hz  4 = 10 Hz
    /// 1 = 1.25 Hz   5 = 20 Hz
    /// 2 = 2.5 Hz    6 = 40 Hz
    /// 3 = 5 Hz      7 = 80 Hz
    pub sample_rate: u8,
    /// Temperature compensation
    pub temp_compensation_enable: bool,
    /// magPerformance can be any value between 0-3
    /// 0 = Low power mode      2 = high performance
    /// 1 = medium performance  3 = ultra-high performance
    pub xy_performance: u8,
    /// Z axis performance mode, as xy_performance
    pub z_performance: u8,
    /// Low-power mode
    pub low_power_enable: bool,
    /// magOperatingMode can be 0-2
    /// 0 = continuous conversion
    /// 1 = single-conversion
    /// 2 = power down
    pub operating_mode: u8,
}

/// Settings for lsm9ds1
#[derive(Clone, Copy, Debug, PartialEq, Eq, Structural)]
pub struct ImuSettings {
    /// Magnetometer
    pub mag: MagSettings,
    /// Accelerometer
    pub accel: AccelSettings,
    /// Gyroscope
    pub gyro: GyroSettings,
}

/// The settings the module is brought up with.
pub open spec fn default_settings() -> ImuSettings {
    ImuSettings {
        accel: AccelSettings {
            enabled: true,
            scale: 2,
            sample_rate: 3,
            enable_x: true,
            enable_y: true,
            enable_z: true,
            bandwidth: -1i8,
            high_res_enable: false,
            high_res_bandwidth: 0,
        },
        gyro: GyroSettings {
            enabled: true,
            scale: 500,
            sample_rate: 3,
            bandwidth: 0,
            low_power_enable: false,
            hpf_enable: false,
            hpf_cutoff: 0,
            flip_x: false,
            flip_y: false,
            flip_z: false,
            orientation: 0,
            enable_x: true,
            enable_y: true,
            enable_z: true,
            latch_interrupt: true,
        },
        mag: MagSettings {
            enabled: true,
            scale: 4,
            sample_rate: 7,
            temp_compensation_enable: false,
            xy_performance: 1,
            z_performance: 1,
            low_power_enable: false,
            operating_mode: 0,
        },
    }
}

impl ImuSettings {
    /// Default settings for lsm9ds1
    pub fn new() -> (r: ImuSettings)
        ensures
            r == default_settings(),
    {
        ImuSettings {
            accel: AccelSettings {
                enabled: true,
                scale: 2,
                sample_rate: 3,
                enable_x: true,
                enable_y: true,
                enable_z: true,
                bandwidth: -1,
                high_res_enable: false,
                high_res_bandwidth: 0,
            },
            gyro: GyroSettings {
                enabled: true,
                scale: 500,
                sample_rate: 3,
                bandwidth: 0,
                low_power_enable: false,
                hpf_enable: false,
                hpf_cutoff: 0,
                flip_x: false,
                flip_y: false,
                flip_z: false,
                orientation: 0,
                enable_x: true,
                enable_y: true,
                enable_z: true,
                latch_interrupt: true,
            },
            mag: MagSettings {
                enabled: true,
                scale: 4,
                sample_rate: 7,
                temp_compensation_enable: false,
                xy_performance: 1,
                z_performance: 1,
                low_power_enable: false,
                operating_mode: 0,
            },
        }
    }
}

} // verus!
