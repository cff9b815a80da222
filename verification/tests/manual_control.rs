use synapse_fbs::topic::{ManualControlAxes, ManualControlData, ManualControlFlags};
use synapse_ppm_bridge::pwm::{centered_to_pwm, mode_to_pwm, throttle_to_pwm};
use synapse_ppm_bridge::{
    channels_from_payload, manual_control_to_channels, ChannelMap, PayloadError, PpmChannels,
    FAILSAFE_CHANNELS,
};

const STICK_AXES: ManualControlAxes = ManualControlAxes::Pitch
    .union(ManualControlAxes::Roll)
    .union(ManualControlAxes::Throttle)
    .union(ManualControlAxes::Yaw);

fn to_milli(value: f32) -> i16 {
    (value * 1000.0).round().clamp(-1000.0, 1000.0) as i16
}

fn manual_control_data_with_flags(
    roll: f32,
    pitch: f32,
    yaw: f32,
    throttle: f32,
    flight_mode: u8,
    flags: ManualControlFlags,
) -> ManualControlData {
    ManualControlData::new(
        42,
        0,
        STICK_AXES.bits(),
        to_milli(pitch),
        to_milli(roll),
        to_milli(throttle),
        to_milli(yaw),
        0,
        0,
        0,
        0,
        0,
        0,
        flight_mode,
        flags.bits(),
    )
}

fn manual_control_data(
    roll: f32,
    pitch: f32,
    yaw: f32,
    throttle: f32,
    flight_mode: u8,
) -> ManualControlData {
    manual_control_data_with_flags(
        roll,
        pitch,
        yaw,
        throttle,
        flight_mode,
        ManualControlFlags::Active | ManualControlFlags::Valid,
    )
}

/// A usable message with the given sticks, in thousandths.
fn usable(throttle: i16, roll: i16, pitch: i16, yaw: i16, flight_mode: u8) -> ManualControlData {
    let flags = ManualControlFlags::Active | ManualControlFlags::Valid;
    ManualControlData::new(
        1, 2, 3, pitch, roll, throttle, yaw, 4, 5, 6, 7, 8, 9, flight_mode, flags.bits(),
    )
}

/// Linear scaling in single precision, rounded to the nearest integer.
fn scale_in_single_precision(value: f32, in_min: f32, in_max: f32) -> u16 {
    let value = if value.is_finite() { value } else { in_min };
    let normalized = ((value - in_min) / (in_max - in_min)).clamp(0.0, 1.0);
    (1000.0_f32 + normalized * (2000.0_f32 - 1000.0_f32)).round() as u16
}

#[test]
fn maps_manual_control_to_base_ppm_channels() {
    let data = manual_control_data(0.5, 0.25, -0.5, 0.75, 1);
    assert_eq!(
        manual_control_to_channels(&data),
        PpmChannels([1750, 1750, 1375, 1250, 2000])
    );
}

#[test]
fn invalid_or_kill_switch_messages_use_failsafe_channels() {
    let invalid = manual_control_data_with_flags(1.0, 1.0, 1.0, 1.0, 1, ManualControlFlags::Active);
    let killed = manual_control_data_with_flags(
        1.0,
        1.0,
        1.0,
        1.0,
        1,
        ManualControlFlags::Active | ManualControlFlags::Valid | ManualControlFlags::KillSwitch,
    );

    assert_eq!(
        manual_control_to_channels(&invalid),
        PpmChannels(FAILSAFE_CHANNELS)
    );
    assert_eq!(
        manual_control_to_channels(&killed),
        PpmChannels(FAILSAFE_CHANNELS)
    );
}

#[test]
fn decodes_synapse_0_8_bare_manual_control_payload() {
    let axes = ManualControlAxes::Pitch
        | ManualControlAxes::Roll
        | ManualControlAxes::Throttle
        | ManualControlAxes::Yaw;
    let flags = ManualControlFlags::Active | ManualControlFlags::Valid;
    let data = ManualControlData::new(
        42,
        0,
        axes.bits(),
        -250,
        500,
        750,
        -500,
        0,
        0,
        0,
        0,
        0,
        0,
        1,
        flags.bits(),
    );

    let channels = channels_from_payload(&data.0, ChannelMap([0, 1, 2, 3, 4])).unwrap();
    assert_eq!(channels, PpmChannels([1750, 1750, 1625, 1250, 2000]));
}

#[test]
fn rejects_non_struct_payload_sizes() {
    let error = channels_from_payload(&[0; 39], ChannelMap([0, 1, 2, 3, 4])).unwrap_err();
    assert!(matches!(
        error,
        PayloadError::InvalidManualControlSize {
            expected: 40,
            actual: 39
        }
    ));
    assert_eq!(
        error.message(),
        "manual control payload is 39 bytes, expected 40"
    );
}

#[test]
fn every_set_of_flags_is_told_apart() {
    for bits in 0..=u8::MAX {
        let data = ManualControlData::new(
            0, 0, 0, 100, 200, 300, 400, 0, 0, 0, 0, 0, 0, 0, bits,
        );
        let flags = ManualControlFlags::from_bits_retain(bits);
        let usable = flags.contains(ManualControlFlags::Valid)
            && flags.contains(ManualControlFlags::Active)
            && !flags.contains(ManualControlFlags::KillSwitch);
        let expected = if usable {
            PpmChannels([1300, 1600, 1450, 1700, 1000])
        } else {
            PpmChannels(FAILSAFE_CHANNELS)
        };
        assert_eq!(manual_control_to_channels(&data), expected);
    }
}

#[test]
fn sticks_agree_with_single_precision_scaling_over_their_whole_range() {
    for milli in i16::MIN..=i16::MAX {
        let normalized = f32::from(milli) / 1000.0;
        let throttle = scale_in_single_precision(normalized, 0.0, 1.0);
        let centered = scale_in_single_precision(normalized, -1.0, 1.0);
        let reversed = scale_in_single_precision(-normalized, -1.0, 1.0);
        assert_eq!(
            manual_control_to_channels(&usable(milli, milli, milli, milli, 0)),
            PpmChannels([throttle, centered, reversed, centered, 1000])
        );
    }
}

#[test]
fn throttle_idles_below_zero_and_saturates_above_full() {
    assert_eq!(throttle_to_pwm(i16::MIN), 1000);
    assert_eq!(throttle_to_pwm(0), 1000);
    assert_eq!(throttle_to_pwm(1), 1001);
    assert_eq!(throttle_to_pwm(999), 1999);
    assert_eq!(throttle_to_pwm(1000), 2000);
    assert_eq!(throttle_to_pwm(i16::MAX), 2000);
}

#[test]
fn centered_sticks_round_halves_up() {
    assert_eq!(centered_to_pwm(-32768), 1000);
    assert_eq!(centered_to_pwm(-1000), 1000);
    assert_eq!(centered_to_pwm(-999), 1001);
    assert_eq!(centered_to_pwm(-1), 1500);
    assert_eq!(centered_to_pwm(0), 1500);
    assert_eq!(centered_to_pwm(1), 1501);
    assert_eq!(centered_to_pwm(999), 2000);
    assert_eq!(centered_to_pwm(32768), 2000);
}

#[test]
fn opposite_commands_mirror_each_other() {
    for milli in -1200..=1200 {
        let sum = centered_to_pwm(milli) + centered_to_pwm(-milli);
        assert!(sum == 3000 || (sum == 3001 && milli % 2 != 0));
    }
}

#[test]
fn sticks_move_their_channels_monotonically() {
    for milli in i16::MIN..i16::MAX {
        assert!(throttle_to_pwm(milli) <= throttle_to_pwm(milli + 1));
        assert!(centered_to_pwm(milli.into()) <= centered_to_pwm(i32::from(milli) + 1));
    }
    let low = manual_control_to_channels(&usable(0, 0, -300, 0, 0));
    let high = manual_control_to_channels(&usable(0, 0, 300, 0, 0));
    assert_eq!(low, PpmChannels([1000, 1500, 1650, 1500, 1000]));
    assert_eq!(high, PpmChannels([1000, 1500, 1350, 1500, 1000]));
}

#[test]
fn mode_channel_is_low_only_for_mode_zero() {
    assert_eq!(mode_to_pwm(0), 1000);
    assert_eq!(mode_to_pwm(1), 2000);
    assert_eq!(mode_to_pwm(255), 2000);
}

#[test]
fn fields_beside_the_command_have_no_effect() {
    let plain = usable(250, -250, 125, 1000, 3);
    let mut noisy = plain;
    for i in (0..14).chain(22..34).chain(36..40) {
        noisy.0[i] = 0xa5;
    }
    assert_eq!(
        manual_control_to_channels(&noisy),
        manual_control_to_channels(&plain)
    );
    assert_eq!(
        manual_control_to_channels(&plain),
        PpmChannels([1250, 1375, 1438, 2000, 2000])
    );
}

#[test]
fn channels_stay_in_range_whatever_the_payload_holds() {
    for byte in 0..=u8::MAX {
        let channels = channels_from_payload(&[byte; 40], ChannelMap::default()).unwrap();
        assert!(channels.0.iter().all(|pwm| (1000..=2000).contains(pwm)));
    }
}

#[test]
fn arm_switch_and_exact_mode_have_no_effect() {
    let plain = usable(250, -250, 125, 1000, 3);
    let mut other = usable(250, -250, 125, 1000, 200);
    other.0[35] |= 0xf1;
    assert_eq!(
        manual_control_to_channels(&other),
        manual_control_to_channels(&plain)
    );
}
