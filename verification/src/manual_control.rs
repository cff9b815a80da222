//! Manual-control messages and the channels that they command.
//!
//! A message is the bare `synapse.topic.ManualControlData` struct: forty bytes at fixed
//! offsets, numbers stored low byte first.

use crate::channels;
use crate::channels::{ChannelMap, PpmChannels, FAILSAFE_CHANNELS, NUM_CHANNELS};
use crate::pwm;
use crate::pwm::{PWM_MAX, PWM_MIN};
use crate::text;
use synapse_fbs::topic::{ManualControlData, ManualControlFlags};
use vstd::prelude::*;
use vstd::string::*;

verus! {

/// The number of bytes of a bare `synapse.topic.ManualControlData` struct.
pub const MANUAL_CONTROL_PAYLOAD_SIZE: usize = 40;

/// `synapse_fbs::topic::ManualControlData`: a public row of forty bytes and nothing else.
#[verifier::external_type_specification]
pub struct ExManualControlData(ManualControlData);

/// The signed 16-bit number that the bytes hold at the position `at`, low byte first.
pub open spec fn i16_at(bytes: Seq<u8>, at: int) -> int {
    let unsigned = bytes[at] + 0x100 * bytes[at + 1];
    if unsigned < 0x8000 {
        unsigned
    } else {
        unsigned - 0x1_0000
    }
}

/// `ManualControlData::pitch_milli` reads the signed number at byte 14.
pub assume_specification<'a>[ ManualControlData::pitch_milli ](
    data: &ManualControlData,
) -> (milli: i16)
    ensures
        milli == i16_at(data.0@, 14),
;

/// `ManualControlData::roll_milli` reads the signed number at byte 16.
pub assume_specification<'a>[ ManualControlData::roll_milli ](
    data: &ManualControlData,
) -> (milli: i16)
    ensures
        milli == i16_at(data.0@, 16),
;

/// `ManualControlData::throttle_milli` reads the signed number at byte 18.
pub assume_specification<'a>[ ManualControlData::throttle_milli ](
    data: &ManualControlData,
) -> (milli: i16)
    ensures
        milli == i16_at(data.0@, 18),
;

/// `ManualControlData::yaw_milli` reads the signed number at byte 20.
pub assume_specification<'a>[ ManualControlData::yaw_milli ](
    data: &ManualControlData,
) -> (milli: i16)
    ensures
        milli == i16_at(data.0@, 20),
;

/// `ManualControlData::flight_mode` reads byte 34.
pub assume_specification<'a>[ ManualControlData::flight_mode ](
    data: &ManualControlData,
) -> (mode: u8)
    ensures
        mode == data.0@[34],
;

/// `ManualControlData::flags` reads byte 35.
pub assume_specification<'a>[ ManualControlData::flags ](data: &ManualControlData) -> (flags: u8)
    ensures
        flags == data.0@[35],
;

/// The bits of `ManualControlFlags::KillSwitch`: bit 1.
#[verifier::external_body]
fn kill_switch_bits() -> (bits: u8)
    ensures
        bits == 2,
{
    ManualControlFlags::KillSwitch.bits()
}

/// The bits of `ManualControlFlags::Active`: bit 2.
#[verifier::external_body]
fn active_bits() -> (bits: u8)
    ensures
        bits == 4,
{
    ManualControlFlags::Active.bits()
}

/// The bits of `ManualControlFlags::Valid`: bit 3.
#[verifier::external_body]
fn valid_bits() -> (bits: u8)
    ensures
        bits == 8,
{
    ManualControlFlags::Valid.bits()
}

/// `ManualControlFlags::contains`, on flag sets that `ManualControlFlags::from_bits_retain`
/// makes of the given bits: whether every bit of `wanted` is set in `flags`.
#[verifier::external_body]
fn flags_contain(flags: u8, wanted: u8) -> (result: bool)
    ensures
        result == (flags & wanted == wanted),
{
    ManualControlFlags::from_bits_retain(flags).contains(
        ManualControlFlags::from_bits_retain(wanted),
    )
}

/// Whether the kill switch asks for the outputs to be inhibited: bit 1 of the flags.
pub open spec fn is_killed(flags: u8) -> bool {
    (flags / 2) % 2 == 1
}

/// Whether manual input is selected: bit 2 of the flags.
pub open spec fn is_active(flags: u8) -> bool {
    (flags / 4) % 2 == 1
}

/// Whether the sample is fresh and passed validation: bit 3 of the flags.
pub open spec fn is_valid(flags: u8) -> bool {
    (flags / 8) % 2 == 1
}

/// Whether a message with these flags may move the outputs.
pub open spec fn is_usable(flags: u8) -> bool {
    is_valid(flags) && is_active(flags) && !is_killed(flags)
}

/// The base channels that a command asks for, stick positions in thousandths: throttle, roll,
/// pitch, yaw, mode. The pitch channel runs against the pitch command. A message that is not
/// usable asks for the failsafe channels, whatever else it holds.
pub open spec fn command_channels(
    flags: u8,
    throttle: int,
    roll: int,
    pitch: int,
    yaw: int,
    flight_mode: u8,
) -> Seq<u16> {
    if is_usable(flags) {
        seq![
            pwm::throttle_pwm(throttle) as u16,
            pwm::centered_pwm(roll) as u16,
            pwm::centered_pwm(-pitch) as u16,
            pwm::centered_pwm(yaw) as u16,
            pwm::mode_pwm(flight_mode) as u16,
        ]
    } else {
        FAILSAFE_CHANNELS@
    }
}

/// The base channels that the bytes of a message ask for.
pub open spec fn message_channels(bytes: Seq<u8>) -> Seq<u16> {
    command_channels(
        bytes[35],
        i16_at(bytes, 18),
        i16_at(bytes, 16),
        i16_at(bytes, 14),
        i16_at(bytes, 20),
        bytes[34],
    )
}

/// The base channels that a message asks for.
pub fn manual_control_to_channels(data: &ManualControlData) -> (channels: PpmChannels)
    ensures
        channels@ == message_channels(data.0@),
        ({
            let bytes = data.0@;
            let signed = |low: u8, high: u8|
                if high < 0x80 {
                    low + 0x100 * high
                } else {
                    low + 0x100 * high - 0x1_0000
                };
            let throttle = signed(bytes[18], bytes[19]);
            let roll = signed(bytes[16], bytes[17]);
            let pitch = signed(bytes[14], bytes[15]);
            let yaw = signed(bytes[20], bytes[21]);
            let usable = (bytes[35] / 8) % 2 == 1 && (bytes[35] / 4) % 2 == 1 && (bytes[35] / 2) % 2
                == 0;
            let limited = |value: int, low: int|
                if value < low {
                    low
                } else if value > 1000 {
                    1000int
                } else {
                    value
                };
            &&& !usable ==> channels.0@ == seq![1000u16, 1500, 1500, 1500, 2000]
            &&& usable ==> {
                &&& channels.0@[0] == 1000 + limited(throttle, 0)
                &&& 0 <= 2 * (channels.0@[1] - 1500) - limited(roll, -1000) <= 1
                &&& 0 <= 2 * (channels.0@[2] - 1500) - limited(-pitch, -1000) <= 1
                &&& 0 <= 2 * (channels.0@[3] - 1500) - limited(yaw, -1000) <= 1
                &&& channels.0@[4] == if bytes[34] == 0 {
                    1000int
                } else {
                    2000int
                }
            }
        }),
{
    let flags: u8 = data.flags();
    assert(flags & 2 == 2 <==> (flags / 2) % 2 == 1) by (bit_vector);
    assert(flags & 4 == 4 <==> (flags / 4) % 2 == 1) by (bit_vector);
    assert(flags & 8 == 8 <==> (flags / 8) % 2 == 1) by (bit_vector);
    if !flags_contain(flags, valid_bits()) || !flags_contain(flags, active_bits())
        || flags_contain(flags, kill_switch_bits()) {
        return PpmChannels(FAILSAFE_CHANNELS);
    }
    let channels = PpmChannels(
        [
            pwm::throttle_to_pwm(data.throttle_milli()),
            pwm::centered_to_pwm(data.roll_milli() as i32),
            pwm::centered_to_pwm(-(data.pitch_milli() as i32)),
            pwm::centered_to_pwm(data.yaw_milli() as i32),
            pwm::mode_to_pwm(data.flight_mode()),
        ],
    );
    assert(channels@ =~= message_channels(data.0@));
    channels
}

/// Why a payload is no manual-control message.
#[derive(Debug, PartialEq, Eq)]
pub enum PayloadError {
    InvalidManualControlSize { expected: usize, actual: usize },
}

impl PayloadError {
    /// The text that describes the error.
    pub open spec fn spec_message(self) -> Seq<char> {
        match self {
            PayloadError::InvalidManualControlSize { expected, actual } => {
                "manual control payload is "@ + text::decimal(actual as nat) + " bytes, expected "@
                    + text::decimal(expected as nat)
            },
        }
    }

    /// Describes the error in words.
    pub fn message(&self) -> (text: String)
        ensures
            text@ == self.spec_message(),
            *self matches PayloadError::InvalidManualControlSize { expected, actual } ==> text@
                == "manual control payload is "@ + text::decimal(actual as nat)
                + " bytes, expected "@ + text::decimal(expected as nat),
    {
        let mut text: String = String::new();
        match self {
            PayloadError::InvalidManualControlSize { expected, actual } => {
                text.append("manual control payload is ");
                text::push_decimal(&mut text, *actual as u64);
                text.append(" bytes, expected ");
                text::push_decimal(&mut text, *expected as u64);
            },
        }
        text
    }
}

/// The message that the payload holds.
fn message_from_payload(payload: &[u8]) -> (data: ManualControlData)
    requires
        payload@.len() == MANUAL_CONTROL_PAYLOAD_SIZE,
    ensures
        data.0@ == payload@,
{
    let mut bytes: [u8; 40] = [0; 40];
    let mut i: usize = 0;
    while i < MANUAL_CONTROL_PAYLOAD_SIZE
        invariant
            i <= MANUAL_CONTROL_PAYLOAD_SIZE,
            payload@.len() == MANUAL_CONTROL_PAYLOAD_SIZE,
            bytes@.take(i as int) == payload@.take(i as int),
        decreases MANUAL_CONTROL_PAYLOAD_SIZE - i,
    {
        bytes[i] = payload[i];
        i = i + 1;
        assert(bytes@.take(i as int) =~= payload@.take(i as int));
    }
    assert(bytes@.take(i as int) =~= bytes@);
    assert(payload@.take(i as int) =~= payload@);
    ManualControlData(bytes)
}

/// The output channels that a payload asks for, or an error when the payload has not the size
/// of a message.
pub fn channels_from_payload(payload: &[u8], channel_map: ChannelMap) -> (result: Result<
    PpmChannels,
    PayloadError,
>)
    requires
        payload@.len() == 40 ==> (forall|i: int| 0 <= i < 5 ==> #[trigger] channel_map.0@[i] < 5),
    ensures
        result is Ok <==> payload@.len() == 40,
        result matches Ok(channels) ==> (forall|i: int|
            0 <= i < 5 ==> #[trigger] channels.0@[i] == message_channels(
                payload@,
            )[channel_map.0@[i] as int]),
        result matches Err(PayloadError::InvalidManualControlSize { expected, actual }) ==> expected
            == 40 && actual == payload@.len(),
        result is Ok <==> payload@.len() == MANUAL_CONTROL_PAYLOAD_SIZE,
        result matches Ok(channels) ==> channels@ == channels::remapped(
            channel_map@,
            message_channels(payload@),
        ),
        result matches Err(PayloadError::InvalidManualControlSize { expected, actual }) ==> expected
            == MANUAL_CONTROL_PAYLOAD_SIZE && actual == payload@.len(),
{
    if payload.len() != MANUAL_CONTROL_PAYLOAD_SIZE {
        return Err(
            PayloadError::InvalidManualControlSize {
                expected: MANUAL_CONTROL_PAYLOAD_SIZE,
                actual: payload.len(),
            },
        );
    }
    let data = message_from_payload(payload);
    Ok(channel_map.apply(manual_control_to_channels(&data)))
}

/// Whatever a message holds, it asks for five channels, each between the shortest and the
/// longest pulse width.
pub proof fn message_channels_stay_in_range(bytes: Seq<u8>)
    ensures
        message_channels(bytes).len() == NUM_CHANNELS,
        forall|i: int|
            0 <= i < NUM_CHANNELS ==> PWM_MIN <= #[trigger] message_channels(bytes)[i] <= PWM_MAX,
{
}

/// A message that is invalid, inactive or killed asks for the failsafe channels, whatever the
/// sticks say.
pub proof fn unusable_messages_ask_for_failsafe(bytes: Seq<u8>)
    requires
        !is_valid(bytes[35]) || !is_active(bytes[35]) || is_killed(bytes[35]),
    ensures
        message_channels(bytes) == FAILSAFE_CHANNELS@,
{
}

/// Only this of a message has a say in the channels: whether its flags make it usable and, where
/// they do, the four sticks and whether the flight mode is zero. Its time stamp, buttons, active
/// axes and auxiliary axes, the arm switch and the unused flags have none.
pub proof fn other_fields_have_no_effect(a: Seq<u8>, b: Seq<u8>)
    requires
        a.len() == MANUAL_CONTROL_PAYLOAD_SIZE,
        b.len() == MANUAL_CONTROL_PAYLOAD_SIZE,
        is_usable(a[35]) == is_usable(b[35]),
        is_usable(a[35]) ==> (forall|i: int| 14 <= i < 22 ==> a[i] == b[i]),
        is_usable(a[35]) ==> (a[34] == 0 <==> b[34] == 0),
    ensures
        message_channels(a) == message_channels(b),
{
}

/// Which bytes of a message drive which channel. `throttle`, `roll`, `pitch` and `yaw` are the
/// signed numbers that bytes 18, 16, 14 and 20 start, low byte first: they lie in the signed
/// range and agree with the bytes up to a multiple of 65536. In a usable message the throttle
/// counts up from 1000, roll and yaw move channels 1 and 3 by half their value around 1500, pitch
/// moves channel 2 the other way, and the mode byte sets channel 4; any other message gives idle
/// throttle, centred sticks and mode high.
pub proof fn bytes_drive_their_channels(
    bytes: Seq<u8>,
    throttle: int,
    roll: int,
    pitch: int,
    yaw: int,
)
    requires
        -0x8000 <= throttle < 0x8000,
        -0x8000 <= roll < 0x8000,
        -0x8000 <= pitch < 0x8000,
        -0x8000 <= yaw < 0x8000,
        (bytes[18] + 0x100 * bytes[19] - throttle) % 0x1_0000 == 0,
        (bytes[16] + 0x100 * bytes[17] - roll) % 0x1_0000 == 0,
        (bytes[14] + 0x100 * bytes[15] - pitch) % 0x1_0000 == 0,
        (bytes[20] + 0x100 * bytes[21] - yaw) % 0x1_0000 == 0,
    ensures
        message_channels(bytes).len() == 5,
        bytes[35] & 0b1110 != 0b1100 ==> message_channels(bytes) == seq![
            1000u16,
            1500,
            1500,
            1500,
            2000,
        ],
        bytes[35] & 0b1110 == 0b1100 ==> {
            let channels = message_channels(bytes);
            &&& throttle <= 0 ==> channels[0] == 1000
            &&& 0 <= throttle <= 1000 ==> channels[0] == 1000 + throttle
            &&& throttle >= 1000 ==> channels[0] == 2000
            &&& roll <= -1000 ==> channels[1] == 1000
            &&& -1000 <= roll <= 1000 ==> 0 <= 2 * (channels[1] - 1500) - roll <= 1
            &&& roll >= 1000 ==> channels[1] == 2000
            &&& pitch <= -1000 ==> channels[2] == 2000
            &&& -1000 <= pitch <= 1000 ==> 0 <= 2 * (channels[2] - 1500) + pitch <= 1
            &&& pitch >= 1000 ==> channels[2] == 1000
            &&& yaw <= -1000 ==> channels[3] == 1000
            &&& -1000 <= yaw <= 1000 ==> 0 <= 2 * (channels[3] - 1500) - yaw <= 1
            &&& yaw >= 1000 ==> channels[3] == 2000
            &&& bytes[34] == 0 ==> channels[4] == 1000
            &&& bytes[34] != 0 ==> channels[4] == 2000
        },
{
    usable_flags_are_valid_active_and_not_killed(bytes[35]);
    assert(throttle == i16_at(bytes, 18));
    assert(roll == i16_at(bytes, 16));
    assert(pitch == i16_at(bytes, 14));
    assert(yaw == i16_at(bytes, 20));
    assert(FAILSAFE_CHANNELS@ =~= seq![1000u16, 1500, 1500, 1500, 2000]);
}

/// Between two usable messages, a channel differs only where the bytes of its own stick do.
pub proof fn each_channel_has_its_own_bytes(a: Seq<u8>, b: Seq<u8>)
    requires
        a[35] & 0b1110 == 0b1100,
        b[35] & 0b1110 == 0b1100,
    ensures
        a[18] == b[18] && a[19] == b[19] ==> message_channels(a)[0] == message_channels(b)[0],
        a[16] == b[16] && a[17] == b[17] ==> message_channels(a)[1] == message_channels(b)[1],
        a[14] == b[14] && a[15] == b[15] ==> message_channels(a)[2] == message_channels(b)[2],
        a[20] == b[20] && a[21] == b[21] ==> message_channels(a)[3] == message_channels(b)[3],
        a[34] == b[34] ==> message_channels(a)[4] == message_channels(b)[4],
{
    usable_flags_are_valid_active_and_not_killed(a[35]);
    usable_flags_are_valid_active_and_not_killed(b[35]);
}

/// A usable message has the bits of Active and Valid set and that of the kill switch clear; the
/// other bits do not count.
pub proof fn usable_flags_are_valid_active_and_not_killed(flags: u8)
    ensures
        is_killed(flags) <==> flags & 2 == 2,
        is_active(flags) <==> flags & 4 == 4,
        is_valid(flags) <==> flags & 8 == 8,
        is_usable(flags) <==> flags & 0b1110 == 0b1100,
{
    assert(flags & 2 == 2 <==> (flags / 2) % 2 == 1) by (bit_vector);
    assert(flags & 4 == 4 <==> (flags / 4) % 2 == 1) by (bit_vector);
    assert(flags & 8 == 8 <==> (flags / 8) % 2 == 1) by (bit_vector);
    assert(flags & 0b1110 == 0b1100 <==> flags & 8 == 8 && flags & 4 == 4 && flags & 2 != 2)
        by (bit_vector);
}

/// Two bytes hold the signed number that they agree with up to a multiple of 65536.
pub proof fn signed_numbers_are_little_endian(bytes: Seq<u8>, at: int)
    ensures
        -0x8000 <= i16_at(bytes, at) < 0x8000,
        (bytes[at] + 0x100 * bytes[at + 1] - i16_at(bytes, at)) % 0x1_0000 == 0,
{
}

/// What a command of given sticks asks for: throttle, roll, reversed pitch, yaw and mode, in this
/// order, where the flags make it usable, and else idle throttle, centred sticks and mode high.
pub proof fn sticks_drive_their_channels(
    flags: u8,
    throttle: int,
    roll: int,
    pitch: int,
    yaw: int,
    flight_mode: u8,
)
    ensures
        ({
            let channels = command_channels(flags, throttle, roll, pitch, yaw, flight_mode);
            &&& channels.len() == 5
            &&& flags & 0b1110 != 0b1100 ==> channels == seq![1000u16, 1500, 1500, 1500, 2000]
            &&& flags & 0b1110 == 0b1100 ==> {
                &&& 0 <= throttle <= 1000 ==> channels[0] == 1000 + throttle
                &&& throttle <= 0 ==> channels[0] == 1000
                &&& throttle >= 1000 ==> channels[0] == 2000
                &&& -1000 <= roll <= 1000 ==> 0 <= 2 * (channels[1] - 1500) - roll <= 1
                &&& roll <= -1000 ==> channels[1] == 1000
                &&& roll >= 1000 ==> channels[1] == 2000
                &&& -1000 <= pitch <= 1000 ==> 0 <= 2 * (channels[2] - 1500) + pitch <= 1
                &&& pitch <= -1000 ==> channels[2] == 2000
                &&& pitch >= 1000 ==> channels[2] == 1000
                &&& -1000 <= yaw <= 1000 ==> 0 <= 2 * (channels[3] - 1500) - yaw <= 1
                &&& yaw <= -1000 ==> channels[3] == 1000
                &&& yaw >= 1000 ==> channels[3] == 2000
                &&& flight_mode == 0 <==> channels[4] == 1000
                &&& flight_mode != 0 <==> channels[4] == 2000
            }
        }),
{
    usable_flags_are_valid_active_and_not_killed(flags);
    assert(FAILSAFE_CHANNELS@ =~= seq![1000u16, 1500, 1500, 1500, 2000]);
}

/// Between usable messages every channel follows its own stick alone, upwards for throttle, roll
/// and yaw and downwards for pitch, and the mode channel is high exactly for a mode other than
/// zero.
pub proof fn channels_follow_their_sticks(
    flags: (u8, u8),
    throttle: (int, int),
    roll: (int, int),
    pitch: (int, int),
    yaw: (int, int),
    flight_mode: (u8, u8),
)
    requires
        is_usable(flags.0),
        is_usable(flags.1),
    ensures
        ({
            let a = command_channels(flags.0, throttle.0, roll.0, pitch.0, yaw.0, flight_mode.0);
            let b = command_channels(flags.1, throttle.1, roll.1, pitch.1, yaw.1, flight_mode.1);
            &&& throttle.0 <= throttle.1 ==> a[0] <= b[0]
            &&& roll.0 <= roll.1 ==> a[1] <= b[1]
            &&& pitch.0 <= pitch.1 ==> a[2] >= b[2]
            &&& yaw.0 <= yaw.1 ==> a[3] <= b[3]
            &&& a[4] <= b[4] <==> (flight_mode.0 == 0 || flight_mode.1 != 0)
        }),
{
}

} // verus!
