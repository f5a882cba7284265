use mushroom_house::bus::{transaction_plan, BusStep};
use mushroom_house::control::{
    fan_step, servo_duty, servo_step, Controller, FanDrive, FanState, Sample, ServoState,
    FAN_HOLD_MS,
};
use mushroom_house::rtu::{decode_reply, request_frame};

#[test]
fn fan_runs_exactly_the_hold_time() {
    let (s, cmd) = fan_step(FanState::Idle, 270, 0);
    assert_eq!(s, FanState::Cooling { deadline_ms: 30_000 });
    assert_eq!(cmd, Some(FanDrive::Forward));
    assert!(s.is_active());
    let (s2, cmd2) = fan_step(s, 250, 10_000);
    assert_eq!(s2, s);
    assert_eq!(cmd2, None);
    let (s3, cmd3) = fan_step(s, 250, 29_999);
    assert_eq!(s3, s);
    assert_eq!(cmd3, None);
    let (s4, cmd4) = fan_step(s, 250, 30_000);
    assert_eq!(s4, FanState::Idle);
    assert_eq!(cmd4, Some(FanDrive::Off));
    assert!(!s4.is_active());
}

#[test]
fn fan_not_retriggered_while_active() {
    let (s, _) = fan_step(FanState::Idle, 300, 1_000);
    let (s2, cmd) = fan_step(s, 300, 20_000);
    assert_eq!(s2, FanState::Cooling { deadline_ms: 31_000 });
    assert_eq!(cmd, None);
}

#[test]
fn fan_threshold_is_strict() {
    assert_eq!(fan_step(FanState::Idle, 265, 0), (FanState::Idle, None));
    assert_eq!(
        fan_step(FanState::Idle, 266, 0),
        (FanState::Cooling { deadline_ms: FAN_HOLD_MS }, Some(FanDrive::Forward))
    );
}

#[test]
fn fan_expiry_with_high_temperature_stops_then_restarts() {
    let mut c = Controller::new();
    c.cycle(Some(280), Some(710), 0);
    let r = c.cycle(Some(280), Some(710), 30_000);
    assert_eq!(r.fan, Some(FanDrive::Off));
    assert_eq!(c.fan, FanState::Idle);
    let r = c.cycle(Some(280), Some(710), 60_000);
    assert_eq!(r.fan, Some(FanDrive::Forward));
    assert_eq!(c.fan, FanState::Cooling { deadline_ms: 90_000 });
}

#[test]
fn servo_humidity_sequence() {
    let s = ServoState::Closed;
    let (s, c) = servo_step(s, 900);
    assert_eq!((s, c), (ServoState::Closed, None));
    let (s, c) = servo_step(s, 650);
    assert_eq!((s, c), (ServoState::Open, Some(120)));
    let (s, c) = servo_step(s, 710);
    assert_eq!((s, c), (ServoState::Open, None));
    let (s, c) = servo_step(s, 730);
    assert_eq!((s, c), (ServoState::Closed, Some(0)));
    assert!(!s.is_open());
}

#[test]
fn servo_band_edges_hold() {
    assert_eq!(servo_step(ServoState::Closed, 700), (ServoState::Closed, None));
    assert_eq!(servo_step(ServoState::Open, 720), (ServoState::Open, None));
    assert_eq!(servo_step(ServoState::Closed, 699), (ServoState::Open, Some(120)));
    assert_eq!(servo_step(ServoState::Open, 721), (ServoState::Closed, Some(0)));
}

#[test]
fn constant_in_band_readings_are_idempotent() {
    for start in [ServoState::Closed, ServoState::Open] {
        let mut c = Controller { fan: FanState::Idle, servo: start };
        for i in 0..10u64 {
            let r = c.cycle(Some(250), Some(710), i * 30_000);
            assert_eq!(r.fan, None);
            assert_eq!(r.servo_deg, None);
            assert_eq!(c.servo, start);
            assert_eq!(c.fan, FanState::Idle);
        }
    }
}

#[test]
fn constant_low_humidity_settles_after_one_cycle() {
    let mut c = Controller::new();
    let r = c.cycle(Some(250), Some(600), 0);
    assert_eq!(r.servo_deg, Some(120));
    for i in 1..5u64 {
        let r = c.cycle(Some(250), Some(600), i * 30_000);
        assert_eq!(r.servo_deg, None);
        assert_eq!(c.servo, ServoState::Open);
    }
}

#[test]
fn missed_reading_freezes_actuators() {
    let mut c = Controller::new();
    c.cycle(Some(300), Some(650), 0);
    let before = c;
    let r = c.cycle(None, Some(900), 40_000);
    assert_eq!(c, before);
    assert_eq!(r.sample, None);
    assert_eq!(r.fan, None);
    assert_eq!(r.servo_deg, None);
    let r = c.cycle(Some(200), None, 40_000);
    assert_eq!(c, before);
    assert_eq!(r.sample, None);
}

fn reply_for(request: &[u8], value: u16) -> Vec<u8> {
    let mut f = vec![request[0], 0x04, 0x02, (value >> 8) as u8, (value & 0xff) as u8];
    let mut crc: u16 = 0xffff;
    for b in &f {
        crc ^= *b as u16;
        for _ in 0..8 {
            crc = if crc & 1 == 0 { crc >> 1 } else { (crc >> 1) ^ 0xA001 };
        }
    }
    f.push((crc & 0xff) as u8);
    f.push((crc >> 8) as u8);
    f
}

#[test]
fn end_to_end_hot_and_dry() {
    let treq = request_frame(1, 0x0001).unwrap();
    let hreq = request_frame(1, 0x0002).unwrap();
    let t = decode_reply(1, &reply_for(&treq, 300));
    let h = decode_reply(1, &reply_for(&hreq, 650));
    let mut c = Controller::new();
    let r = c.cycle(t, h, 0);
    let s = r.sample.unwrap();
    assert_eq!(s, Sample { temp_tenths: 300, hum_tenths: 650 });
    assert!((s.temp_tenths as f32 / 10.0 - 30.0).abs() < 1e-4);
    assert!((s.hum_tenths as f32 / 10.0 - 65.0).abs() < 1e-4);
    assert_eq!(r.fan, Some(FanDrive::Forward));
    assert_eq!(r.servo_deg, Some(120));
    assert!(c.fan.is_active());
    assert!(c.servo.is_open());
}

#[test]
fn servo_duty_values() {
    assert_eq!(servo_duty(0, 8191), 204);
    assert_eq!(servo_duty(120, 8191), 750);
    assert_eq!(servo_duty(180, 8191), 1023);
    assert_eq!(servo_duty(90, 1800), 135);
    assert_eq!(servo_duty(180, u32::MAX), (u32::MAX as u64 * 225 / 1800) as u32);
}

#[test]
fn bus_plan_releases_before_reply() {
    let plan = transaction_plan();
    assert_eq!(
        plan,
        vec![
            BusStep::DriveTransmit,
            BusStep::WriteRequest,
            BusStep::AwaitSent { timeout_ms: 100 },
            BusStep::ReleaseTransmit,
            BusStep::ReadReply { timeout_ms: 500 },
        ]
    );
}
