use flight_core::black_box::{BlackBoxInput, LogBuffer, MAX_BUFFER_LEN};
use flight_core::collector::{Input, QuadcopterCollector, TankCollector, TankInput};
use flight_core::config::{level_from_name, LogLevel, TryIntoLevelFilter};
use flight_core::imu::SampleClock;
use flight_core::control_loop::{ControlLoopTimer, MAX_CONTROL_LOOP_PERIOD_US};
use flight_core::pwm::{
    enabled_from_text, enabled_text, polarity_from_text, polarity_text, NavioEscOutputController, Polarity,
    PwmPin, PERIOD_NS,
};
use flight_core::quadcopter::{
    led_for_mode, motor_command, rc_channel_offset, ArmingState, BatteryLevel, LedColor, Mode, MotorCommand,
};
use flight_core::tank::{tank_mode, RcSwitches, TankMode, TankModeState};

#[test]
fn quadcopter_modes() {
    let mut state = ArmingState::new();
    assert_eq!(state.mode(false, true, true, BatteryLevel::Sufficient), Mode::Off);
    assert_eq!(state.mode(true, false, true, BatteryLevel::Sufficient), Mode::Off);
    assert_eq!(state.mode(true, true, false, BatteryLevel::Sufficient), Mode::Disarmed);
    assert_eq!(state.mode(true, true, true, BatteryLevel::Low), Mode::Disarmed);
    assert_eq!(state.mode(true, true, true, BatteryLevel::Sufficient), Mode::Armed);
    // Once armed, a low battery only warns.
    assert_eq!(state.mode(true, true, true, BatteryLevel::Low), Mode::Armed);
    assert_eq!(state.mode(true, true, false, BatteryLevel::Low), Mode::Disarmed);
    assert_eq!(state.mode(true, true, true, BatteryLevel::Low), Mode::Disarmed);
    assert_eq!(state.previous_mode, Mode::Disarmed);
}

#[test]
fn quadcopter_led_colours() {
    assert_eq!(led_for_mode(Mode::Armed), Some(LedColor::Green));
    assert_eq!(led_for_mode(Mode::Disarmed), Some(LedColor::Red));
    assert_eq!(led_for_mode(Mode::Off), None);
}

#[test]
fn quadcopter_motor_commands() {
    assert_eq!(motor_command(Mode::Off, true), MotorCommand::Stop);
    assert_eq!(motor_command(Mode::Disarmed, false), MotorCommand::Stop);
    assert_eq!(motor_command(Mode::Armed, false), MotorCommand::Mix);
    assert_eq!(motor_command(Mode::Armed, true), MotorCommand::Passthrough);
}

#[test]
fn tank_modes() {
    let on = RcSwitches { failsafe: false, trigger_a_on: true, trigger_b_on: false };
    let auto = RcSwitches { failsafe: false, trigger_a_on: true, trigger_b_on: true };
    let lost = RcSwitches { failsafe: true, trigger_a_on: true, trigger_b_on: true };
    assert_eq!(tank_mode(None, Some(on)), TankMode::Disarmed);
    assert_eq!(tank_mode(Some(true), None), TankMode::Disarmed);
    assert_eq!(tank_mode(Some(true), Some(lost)), TankMode::Failsafe);
    assert_eq!(tank_mode(Some(false), Some(on)), TankMode::Disarmed);
    assert_eq!(tank_mode(Some(true), Some(on)), TankMode::ArmedControlled);
    assert_eq!(tank_mode(Some(true), Some(auto)), TankMode::ArmedAutonomous);

    let mut state = TankModeState::new();
    assert_eq!(state.update(Some(true), Some(auto)), (TankMode::ArmedAutonomous, false));
    assert_eq!(state.update(Some(true), Some(auto)), (TankMode::ArmedAutonomous, false));
    assert_eq!(state.update(Some(true), Some(on)), (TankMode::ArmedControlled, false));
    assert_eq!(state.update(Some(true), Some(auto)), (TankMode::ArmedAutonomous, true));
}

#[test]
fn control_loop_emits_on_empty_queue_or_after_period() {
    let mut timer = ControlLoopTimer::new(1_000);
    assert!(timer.on_frame(2_000, true));
    assert_eq!(timer.last_emit_us(), 2_000);
    assert!(!timer.on_frame(3_000, false));
    assert!(!timer.on_frame(2_000 + MAX_CONTROL_LOOP_PERIOD_US - 1, false));
    assert!(timer.on_frame(2_000 + MAX_CONTROL_LOOP_PERIOD_US, false));
    assert_eq!(timer.last_emit_us(), 52_000);
}

#[test]
fn control_loop_gap_is_bounded_under_saturation() {
    // Frames every 7 ms with a queue that never empties.
    let gap = 7_000u64;
    let mut timer = ControlLoopTimer::new(0);
    let mut last = 0u64;
    let mut now = 0u64;
    for _ in 0..100 {
        now += gap;
        if timer.on_frame(now, false) {
            assert!(now - last <= MAX_CONTROL_LOOP_PERIOD_US + gap);
            last = now;
        }
        assert!(now - last < MAX_CONTROL_LOOP_PERIOD_US);
    }
    assert!(last > 0);
}

#[test]
fn collector_keeps_latest_values() {
    let mut collector: QuadcopterCollector<u32, (i32, i32), [u8; 2]> = QuadcopterCollector::new(0, (0, 0));
    let frame = collector.collect(Input::NavioAdc(12));
    assert_eq!(frame.navio_adc, 12);
    let frame = collector.collect(Input::RcChannels(Some([1, 2])));
    assert_eq!(frame.rc_channels, Some([1, 2]));
    let frame = collector.collect(Input::Orientation((3, 4)));
    assert_eq!(frame.orientation, (3, 4));
    assert_eq!(frame.navio_adc, 12);
    let frame = collector.collect(Input::RcChannels(None));
    assert_eq!(frame.rc_channels, None);
    assert!(!frame.soft_armed);
}

#[test]
fn collector_duplicate_soft_armed_yields_identical_frames() {
    let mut collector: QuadcopterCollector<u32, u32, u32> = QuadcopterCollector::new(5, 6);
    let first = collector.collect(Input::SoftArmed(true));
    let second = collector.collect(Input::SoftArmed(true));
    assert!(first.soft_armed);
    assert_eq!(first.navio_adc, second.navio_adc);
    assert_eq!(first.orientation, second.orientation);
    assert_eq!(first.rc_channels, second.rc_channels);
    assert_eq!(first.soft_armed, second.soft_armed);
}

#[test]
fn log_buffer_flushes_above_limit_and_on_request() {
    let mut buffer = LogBuffer::new();
    assert!(!buffer.flush_on_timeout());
    for i in 0..MAX_BUFFER_LEN {
        assert!(!buffer.receive(BlackBoxInput::Message(format!("line {}", i))));
    }
    assert!(buffer.receive(BlackBoxInput::Message(String::from("one more"))));
    assert_eq!(buffer.len(), MAX_BUFFER_LEN + 1);
    assert!(buffer.flush_on_timeout());
    assert_eq!(buffer.pop_front(), Some(String::from("line 0")));
    assert!(buffer.receive(BlackBoxInput::Flush));
    assert_eq!(buffer.len(), MAX_BUFFER_LEN);
    while buffer.pop_front().is_some() {}
    buffer.report_failure(String::from("Failed to flush black box: disk full"));
    assert_eq!(buffer.pop_front(), Some(String::from("Failed to flush black box: disk full")));
    assert_eq!(buffer.pop_front(), None);
}

#[test]
fn log_levels_by_name() {
    assert_eq!(level_from_name("none"), Some(LogLevel::Off));
    assert_eq!(level_from_name("error"), Some(LogLevel::Error));
    assert_eq!(level_from_name("warn"), Some(LogLevel::Warn));
    assert_eq!(level_from_name("info"), Some(LogLevel::Info));
    assert_eq!(level_from_name("debug"), Some(LogLevel::Debug));
    assert_eq!(level_from_name("all"), Some(LogLevel::Trace));
    assert_eq!(level_from_name("trace"), None);
    assert_eq!(level_from_name(""), None);
    assert_eq!(String::from("warn").try_into_level_filter(), Ok(LogLevel::Warn));
    assert_eq!(String::from("loud").try_into_level_filter(), Err(()));
}

#[test]
fn esc_channels_keep_their_order() {
    let esc = NavioEscOutputController::new([13, 12, 1, 0]);
    let channels: Vec<u32> = esc.esc_channels.iter().map(|p| p.channel()).collect();
    assert_eq!(channels, vec![13, 12, 1, 0]);
    assert!(PwmPin::new(3).unexport_on_drop());
    assert_eq!(PERIOD_NS, 2_500_000);
}

#[test]
fn rc_channel_offsets() {
    assert_eq!(rc_channel_offset(1500, 1024, 2003), 476);
    assert_eq!(rc_channel_offset(900, 1024, 2003), 0);
    assert_eq!(rc_channel_offset(2100, 1024, 2003), 979);
    assert_eq!(rc_channel_offset(1500, 2000, 1000), 0);
}

#[test]
fn sysfs_attribute_texts() {
    assert_eq!(polarity_text(Polarity::Normal), "normal");
    assert_eq!(polarity_text(Polarity::Inverse), "inversed");
    assert_eq!(polarity_from_text("normal"), Polarity::Normal);
    assert_eq!(polarity_from_text("inversed"), Polarity::Inverse);
    assert_eq!(polarity_from_text("norma"), Polarity::Inverse);
    assert_eq!(enabled_text(true), "1");
    assert_eq!(enabled_text(false), "0");
    assert!(!enabled_from_text("0"));
    assert!(enabled_from_text("1"));
    assert!(enabled_from_text("00"));
}

#[test]
fn first_imu_sample_has_no_time_step() {
    let mut clock = SampleClock::new();
    assert_eq!(clock.tick(1_000), None);
    assert_eq!(clock.tick(3_000), Some(2_000));
    assert_eq!(clock.tick(2_500), Some(0));
    assert_eq!(clock.last_sample_us, Some(2_500));
}

#[test]
fn tank_collector_keeps_latest_values() {
    let mut collector: TankCollector<u8, u16> = TankCollector::new();
    let frame = collector.collect(TankInput::<u8, u16, i32>::Altitude(3));
    assert_eq!((frame.orientation, frame.rc_channels, frame.soft_armed), (None, None, None));
    let frame = collector.collect(TankInput::<u8, u16, i32>::SoftArmed(true));
    assert_eq!(frame.soft_armed, Some(true));
    let frame = collector.collect(TankInput::<u8, u16, i32>::RcChannels(900));
    let frame2 = collector.collect(TankInput::<u8, u16, i32>::OrientationEuler(7));
    assert_eq!(frame.rc_channels, Some(900));
    assert_eq!((frame2.orientation, frame2.rc_channels, frame2.soft_armed), (Some(7), Some(900), Some(true)));
}
