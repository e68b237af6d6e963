use f4::bb::alias_address;
use f4::clock::{calculate_pll, flash_latency};
use f4::dwt::{after_attempt, deadline, expired, Attempt};
use f4::lsm9ds1::ImuSettings;
use f4::math_utils::{Quaternion, Vector3};
use f4::serial::{rx_ready, tx_ready, Error, Status, Writer};
use f4::time::{Bps, Hertz, Microseconds, Milliseconds, Seconds, U32Ext};
use f4::timer::prescaler_reload;

fn status() -> Status {
    Status { overrun: false, noise: false, framing: false, rx_not_empty: false, tx_empty: false }
}

#[test]
fn rx_status_decisions() {
    assert_eq!(rx_ready(status()), Ok(false));
    assert_eq!(rx_ready(Status { rx_not_empty: true, ..status() }), Ok(true));
    assert_eq!(rx_ready(Status { framing: true, rx_not_empty: true, ..status() }), Err(Error::Framing));
    assert_eq!(rx_ready(Status { noise: true, framing: true, ..status() }), Err(Error::Noise));
    assert_eq!(rx_ready(Status { overrun: true, noise: true, ..status() }), Err(Error::Overrun));
}

#[test]
fn tx_status_decisions() {
    assert_eq!(tx_ready(status()), Ok(false));
    assert_eq!(tx_ready(Status { tx_empty: true, ..status() }), Ok(true));
    assert_eq!(tx_ready(Status { overrun: true, tx_empty: true, ..status() }), Err(Error::Overrun));
}

#[test]
fn pll_for_100_and_84_mhz() {
    assert_eq!(calculate_pll(16, 400, 4), ((1 << 16) | (400 << 6) | 16, 100_000_000));
    assert_eq!(calculate_pll(16, 336, 4), ((1 << 16) | (336 << 6) | 16, 84_000_000));
    assert_eq!(calculate_pll(8, 96, 2), ((96 << 6) | 8, 96_000_000));
    assert_eq!(calculate_pll(10, 240, 6), ((2 << 16) | (240 << 6) | 10, 64_000_000));
    assert_eq!(calculate_pll(16, 192, 8), ((3 << 16) | (192 << 6) | 16, 24_000_000));
}

#[test]
fn flash_wait_states() {
    assert_eq!(flash_latency(16_000_000), 0);
    assert_eq!(flash_latency(30_000_000), 0);
    assert_eq!(flash_latency(30_000_001), 1);
    assert_eq!(flash_latency(64_000_000), 1);
    assert_eq!(flash_latency(84_000_000), 2);
    assert_eq!(flash_latency(100_000_000), 3);
}

#[test]
fn bit_band_alias() {
    assert_eq!(alias_address(0x4000_0000, 0), 0x4200_0000);
    assert_eq!(alias_address(0x4002_0014, 5), 0x4200_0000 + 0x2_0014 * 32 + 20);
}

#[test]
fn cycle_deadlines() {
    let d = deadline(100, 50);
    assert_eq!(d, 150);
    assert!(!expired(d, 120));
    assert!(!expired(d, 150));
    assert!(expired(d, 151));
    let w = deadline(u32::MAX - 9, 20);
    assert_eq!(w, 10);
    assert!(!expired(w, u32::MAX));
    assert!(expired(w, 11));
}

#[test]
fn timer_prescaler() {
    assert_eq!(prescaler_reload(1), (0, 1));
    assert_eq!(prescaler_reload(65_536), (0, 65_536));
    assert_eq!(prescaler_reload(100_000), (1, 50_000));
    assert_eq!(prescaler_reload(u32::MAX), (65_535, 65_535));
}

#[test]
fn time_units() {
    assert_eq!(115_200u32.bps(), Bps(115_200));
    assert_eq!(8u32.hz(), Hertz(8));
    assert_eq!(3u32.ms(), Milliseconds(3));
    assert_eq!(2u32.s(), Seconds(2));
    assert_eq!(7u32.us(), Microseconds(7));
}

#[test]
fn vectors_and_quaternions() {
    let mut v = Vector3::<i16>::new();
    assert_eq!(v, Vector3 { x: 1, y: 0, z: 0 });
    v.set(Vector3 { x: -3, y: 4, z: 5 });
    assert_eq!(v, Vector3 { x: -3, y: 4, z: 5 });
    let mut q = Quaternion { x: 0i32, y: 0, z: 0, w: 0 };
    q.set(Quaternion { x: 1, y: 2, z: 3, w: 4 });
    assert_eq!(q, Quaternion { x: 1, y: 2, z: 3, w: 4 });
}

#[test]
fn imu_default_settings() {
    let s = ImuSettings::new();
    assert!(s.accel.enabled);
    assert_eq!(s.accel.scale, 2);
    assert_eq!(s.accel.bandwidth, -1);
    assert_eq!(s.gyro.scale, 500);
    assert!(s.gyro.latch_interrupt);
    assert_eq!(s.mag.sample_rate, 7);
    assert_eq!(s.mag.xy_performance, 1);
}

#[test]
fn writer_appends() {
    let mut buf = [0u8; 8];
    {
        let mut w = Writer::out(&mut buf);
        assert_eq!(w.remaining(), 8);
        w.write_bytes(b"hi ");
        w.write_bytes(b"42");
        assert_eq!(w.remaining(), 3);
    }
    assert_eq!(&buf, b"hi 42\0\0\0");
}

#[test]
fn retry_decisions() {
    assert_eq!(after_attempt(true, 10, 500), Attempt::Succeeded);
    assert_eq!(after_attempt(false, 10, 500), Attempt::TimedOut);
    assert_eq!(after_attempt(false, 10, 5), Attempt::Retry);
    assert_eq!(after_attempt(false, 10, 10), Attempt::Retry);
}
