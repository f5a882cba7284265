//! The two actuator state machines (a timed fan and a hysteresis servo) and
//! the per-cycle controller that advances them from fresh sensor readings.
//!
//! Readings are raw register values in tenths of a unit (°C or %RH); times
//! are milliseconds on a monotonic clock.

use vstd::prelude::*;

verus! {

/// Modbus unit id of the sensor.
pub const SENSOR_UNIT: u8 = 1;

/// Input register that holds the temperature.
pub const TEMPERATURE_REGISTER: u16 = 1;

/// Input register that holds the relative humidity.
pub const HUMIDITY_REGISTER: u16 = 2;

/// Longest wait for the request bytes to leave the transmitter.
pub const TX_DONE_TIMEOUT_MS: u32 = 100;

/// Longest wait for a reply.
pub const REPLY_TIMEOUT_MS: u32 = 500;

/// Pause between two polling cycles.
pub const POLL_PERIOD_MS: u64 = 30000;

/// The fan starts above this temperature (26.5 °C).
pub const FAN_TRIGGER_TENTHS: u16 = 265;

/// How long the fan runs once started.
pub const FAN_HOLD_MS: u64 = 30000;

/// The roof opens below this humidity (70 %RH).
pub const OPEN_BELOW_TENTHS: u16 = 700;

/// The roof closes above this humidity (72 %RH).
pub const CLOSE_ABOVE_TENTHS: u16 = 720;

/// Servo angle of the open roof, in degrees.
pub const SERVO_OPEN_DEG: u32 = 120;

/// Servo angle of the closed roof, in degrees.
pub const SERVO_CLOSED_DEG: u32 = 0;

/// One successful poll: both readings in tenths of a unit.
#[derive(Clone, Copy, Debug, PartialEq, Eq, Structural)]
pub struct Sample {
    pub temp_tenths: u16,
    pub hum_tenths: u16,
}

/// The fan timer: idle, or cooling until a deadline.
#[derive(Clone, Copy, Debug, PartialEq, Eq, Structural)]
pub enum FanState {
    Idle,
    Cooling { deadline_ms: u64 },
}

/// What to drive on the fan's two input lines.
#[derive(Clone, Copy, Debug, PartialEq, Eq, Structural)]
pub enum FanDrive {
    /// Input A low, input B high.
    Forward,
    /// Both inputs low.
    Off,
}

/// The roof servo position.
#[derive(Clone, Copy, Debug, PartialEq, Eq, Structural)]
pub enum ServoState {
    Closed,
    Open,
}

impl FanState {
    pub fn is_active(&self) -> (r: bool)
        ensures
            r == (*self is Cooling),
    {
        match self {
            FanState::Idle => false,
            FanState::Cooling { .. } => true,
        }
    }
}

impl ServoState {
    pub fn is_open(&self) -> (r: bool)
        ensures
            r == (*self is Open),
    {
        match self {
            ServoState::Closed => false,
            ServoState::Open => true,
        }
    }
}

/// The fan's next state and the command to drive, if any.
pub open spec fn fan_next(state: FanState, temp_tenths: u16, now_ms: u64) -> (FanState, Option<FanDrive>) {
    match state {
        FanState::Idle => if temp_tenths > FAN_TRIGGER_TENTHS {
            (FanState::Cooling { deadline_ms: (now_ms + FAN_HOLD_MS) as u64 }, Some(FanDrive::Forward))
        } else {
            (FanState::Idle, None)
        },
        FanState::Cooling { deadline_ms } => if now_ms >= deadline_ms {
            (FanState::Idle, Some(FanDrive::Off))
        } else {
            (state, None)
        },
    }
}

/// The servo's next state and the angle to move to, if any.
pub open spec fn servo_next(state: ServoState, hum_tenths: u16) -> (ServoState, Option<u32>) {
    if hum_tenths < OPEN_BELOW_TENTHS && state is Closed {
        (ServoState::Open, Some(SERVO_OPEN_DEG))
    } else if hum_tenths > CLOSE_ABOVE_TENTHS && state is Open {
        (ServoState::Closed, Some(SERVO_CLOSED_DEG))
    } else {
        (state, None)
    }
}

/// Advances the fan timer. An idle fan starts above the trigger temperature
/// and runs for the hold time whatever the temperature does meanwhile; it
/// stops once the clock reaches its deadline.
pub fn fan_step(state: FanState, temp_tenths: u16, now_ms: u64) -> (r: (FanState, Option<FanDrive>))
    requires
        now_ms + FAN_HOLD_MS <= u64::MAX,
    ensures
        r == fan_next(state, temp_tenths, now_ms),
{
    match state {
        FanState::Idle => {
            if temp_tenths > FAN_TRIGGER_TENTHS {
                (FanState::Cooling { deadline_ms: now_ms + FAN_HOLD_MS }, Some(FanDrive::Forward))
            } else {
                (FanState::Idle, None)
            }
        },
        FanState::Cooling { deadline_ms } => {
            if now_ms >= deadline_ms {
                (FanState::Idle, Some(FanDrive::Off))
            } else {
                (state, None)
            }
        },
    }
}

/// Advances the roof servo: it opens below the lower humidity threshold,
/// closes above the upper one, and holds its position in between.
pub fn servo_step(state: ServoState, hum_tenths: u16) -> (r: (ServoState, Option<u32>))
    ensures
        r == servo_next(state, hum_tenths),
{
    if hum_tenths < OPEN_BELOW_TENTHS && !state.is_open() {
        (ServoState::Open, Some(SERVO_OPEN_DEG))
    } else if hum_tenths > CLOSE_ABOVE_TENTHS && state.is_open() {
        (ServoState::Closed, Some(SERVO_CLOSED_DEG))
    } else {
        (state, None)
    }
}

/// The PWM duty for a servo angle at 50 Hz: a pulse of 0.5 ms to 2.5 ms, that
/// is a duty fraction of `0.025 + angle / 1800`, times the output's largest
/// duty, truncated.
pub open spec fn duty_of(angle_deg: u32, max_duty: u32) -> int {
    max_duty as int * (45 + angle_deg as int) / 1800
}

/// Converts a servo angle (0 to 180 degrees) into a PWM duty value.
pub fn servo_duty(angle_deg: u32, max_duty: u32) -> (r: u32)
    requires
        angle_deg <= 180,
    ensures
        r == duty_of(angle_deg, max_duty),
{
    let factor: u64 = 45 + angle_deg as u64;
    assert(max_duty as u64 * factor <= 225 * 0xffff_ffffu64) by (nonlinear_arith)
        requires
            factor <= 225,
    ;
    let scaled: u64 = max_duty as u64 * factor;
    assert(scaled / 1800 <= max_duty) by (nonlinear_arith)
        requires
            scaled == max_duty as u64 * factor,
            factor <= 225,
    ;
    (scaled / 1800) as u32
}

/// The actuator state carried from one polling cycle to the next.
#[derive(Clone, Copy, Debug, PartialEq, Eq, Structural)]
pub struct Controller {
    pub fan: FanState,
    pub servo: ServoState,
}

/// What one cycle produced: the sample to publish and the actuator commands.
#[derive(Clone, Copy, Debug, PartialEq, Eq, Structural)]
pub struct CycleReport {
    pub sample: Option<Sample>,
    pub fan: Option<FanDrive>,
    pub servo_deg: Option<u32>,
}

/// The controller after one cycle with the given readings, and its report.
/// Without both readings nothing changes and nothing is commanded.
pub open spec fn cycle_next(
    c: Controller,
    temperature: Option<u16>,
    humidity: Option<u16>,
    now_ms: u64,
) -> (Controller, CycleReport) {
    match (temperature, humidity) {
        (Some(t), Some(h)) => {
            let (fan, fan_cmd) = fan_next(c.fan, t, now_ms);
            let (servo, servo_cmd) = servo_next(c.servo, h);
            (
                Controller { fan, servo },
                CycleReport {
                    sample: Some(Sample { temp_tenths: t, hum_tenths: h }),
                    fan: fan_cmd,
                    servo_deg: servo_cmd,
                },
            )
        },
        _ => (c, CycleReport { sample: None, fan: None, servo_deg: None }),
    }
}

impl Controller {
    /// Fan idle and roof closed.
    pub fn new() -> (r: Controller)
        ensures
            r == (Controller { fan: FanState::Idle, servo: ServoState::Closed }),
    {
        Controller { fan: FanState::Idle, servo: ServoState::Closed }
    }

    /// Runs the decisions of one polling cycle on the two readings, either of
    /// which may be missing.
    pub fn cycle(&mut self, temperature: Option<u16>, humidity: Option<u16>, now_ms: u64) -> (r:
        CycleReport)
        requires
            now_ms + FAN_HOLD_MS <= u64::MAX,
        ensures
            (*final(self), r) == cycle_next(*old(self), temperature, humidity, now_ms),
    {
        match (temperature, humidity) {
            (Some(t), Some(h)) => {
                let (fan, fan_cmd) = fan_step(self.fan, t, now_ms);
                let (servo, servo_cmd) = servo_step(self.servo, h);
                self.fan = fan;
                self.servo = servo;
                CycleReport {
                    sample: Some(Sample { temp_tenths: t, hum_tenths: h }),
                    fan: fan_cmd,
                    servo_deg: servo_cmd,
                }
            },
            _ => CycleReport { sample: None, fan: None, servo_deg: None },
        }
    }
}

/// Once started at `start_ms`, the fan keeps running, with no command, at
/// every time before `start_ms + FAN_HOLD_MS` whatever the temperature, and
/// stops at any time from then on.
pub proof fn lemma_fan_hold(trigger_tenths: u16, start_ms: u64, temp_tenths: u16, now_ms: u64)
    requires
        trigger_tenths > FAN_TRIGGER_TENTHS,
        start_ms + FAN_HOLD_MS <= u64::MAX,
    ensures
        fan_next(FanState::Idle, trigger_tenths, start_ms) == (
        FanState::Cooling { deadline_ms: (start_ms + FAN_HOLD_MS) as u64 },
        Some(FanDrive::Forward),
        ),
        now_ms < start_ms + FAN_HOLD_MS ==> fan_next(
            fan_next(FanState::Idle, trigger_tenths, start_ms).0,
            temp_tenths,
            now_ms,
        ) == (fan_next(FanState::Idle, trigger_tenths, start_ms).0, None::<FanDrive>),
        now_ms >= start_ms + FAN_HOLD_MS ==> fan_next(
            fan_next(FanState::Idle, trigger_tenths, start_ms).0,
            temp_tenths,
            now_ms,
        ) == (FanState::Idle, Some(FanDrive::Off)),
{
}

/// Humidity inside the band between the two thresholds never moves the servo.
pub proof fn lemma_servo_dead_band(state: ServoState, hum_tenths: u16)
    requires
        OPEN_BELOW_TENTHS <= hum_tenths <= CLOSE_ABOVE_TENTHS,
    ensures
        servo_next(state, hum_tenths) == (state, None::<u32>),
{
}

/// With a constant humidity the servo settles after one step: a second step
/// on the same reading moves nothing.
pub proof fn lemma_servo_settles(state: ServoState, hum_tenths: u16)
    ensures
        servo_next(servo_next(state, hum_tenths).0, hum_tenths) == (
        servo_next(state, hum_tenths).0,
        None::<u32>,
        ),
{
}

/// Repeating a cycle on the same readings, with the temperature at or below
/// the fan trigger and the fan idle, commands nothing after the first cycle
/// and leaves the state as the first cycle left it.
pub proof fn lemma_cycle_settles(c: Controller, t: u16, h: u16, now1: u64, now2: u64)
    requires
        c.fan is Idle,
        t <= FAN_TRIGGER_TENTHS,
    ensures
        ({
            let c1 = cycle_next(c, Some(t), Some(h), now1).0;
            let (c2, r2) = cycle_next(c1, Some(t), Some(h), now2);
            &&& c2 == c1
            &&& r2.fan is None
            &&& r2.servo_deg is None
        }),
{
}

/// A cycle that misses either reading changes no state and commands nothing.
pub proof fn lemma_missed_reading_freezes(
    c: Controller,
    temperature: Option<u16>,
    humidity: Option<u16>,
    now_ms: u64,
)
    requires
        temperature is None || humidity is None,
    ensures
        cycle_next(c, temperature, humidity, now_ms) == (
        c,
        CycleReport { sample: None, fan: None, servo_deg: None },
        ),
{
}

} // verus!
