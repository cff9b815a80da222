//! What the bridge does with each payload and what it reports.

use crate::channels;
use crate::channels::{ChannelMap, NUM_CHANNELS};
use crate::manual_control;
use crate::manual_control::{channels_from_payload, PayloadError, MANUAL_CONTROL_PAYLOAD_SIZE};
use crate::packet;
use crate::packet::{build_packet, PACKET_HEADER, PACKET_LEN};
use crate::pwm::{PWM_MAX, PWM_MIN};
use crate::text;
use vstd::prelude::*;
use vstd::string::*;

verus! {

/// What to do with a payload that has arrived.
#[derive(Debug, PartialEq, Eq)]
pub enum PayloadAction {
    /// Write these bytes to the encoder.
    Write([u8; PACKET_LEN]),
    /// Report the size of the payload and go on with the next one.
    Drop { expected: usize, actual: usize },
}

/// The words of the packet that answers a message.
pub open spec fn answer_words(channel_map: Seq<usize>, message: Seq<u8>) -> Seq<u16> {
    packet::packet_words(
        channels::remapped(channel_map, manual_control::message_channels(message)),
    )
}

/// Whether a payload has the size of a message.
pub open spec fn is_message(payload: Seq<u8>) -> bool {
    payload.len() == MANUAL_CONTROL_PAYLOAD_SIZE
}

/// The bytes of the packet that answers a message.
pub open spec fn answer(channel_map: Seq<usize>, message: Seq<u8>) -> Seq<u8> {
    packet::word_bytes(answer_words(channel_map, message))
}

/// The bytes that a payload sends to the encoder: an answer, or nothing.
pub open spec fn payload_bytes(channel_map: Seq<usize>, payload: Seq<u8>) -> Seq<u8> {
    if is_message(payload) {
        answer(channel_map, payload)
    } else {
        seq![]
    }
}

impl PayloadAction {
    /// The bytes that the action sends to the encoder.
    pub open spec fn bytes(self) -> Seq<u8> {
        match self {
            PayloadAction::Write(bytes) => bytes@,
            PayloadAction::Drop { .. } => seq![],
        }
    }
}

/// Whether `action` is the right one for the payload: a message is answered, and a payload of
/// any other size is dropped with both sizes.
pub open spec fn is_payload_action(
    channel_map: Seq<usize>,
    payload: Seq<u8>,
    action: PayloadAction,
) -> bool {
    match action {
        PayloadAction::Write(bytes) => {
            &&& is_message(payload)
            &&& bytes@ == answer(channel_map, payload)
        },
        PayloadAction::Drop { expected, actual } => {
            &&& !is_message(payload)
            &&& expected == MANUAL_CONTROL_PAYLOAD_SIZE
            &&& actual == payload.len()
        },
    }
}

/// Decides what to do with a payload: a message is answered with one packet, and a payload of
/// any other size is dropped.
pub fn payload_action(payload: &[u8], channel_map: ChannelMap) -> (action: PayloadAction)
    requires
        payload@.len() == 40 ==> (forall|i: int| 0 <= i < 5 ==> #[trigger] channel_map.0@[i] < 5),
    ensures
        is_payload_action(channel_map@, payload@, action),
        action.bytes() == payload_bytes(channel_map@, payload@),
        action is Write <==> payload@.len() == 40,
        action matches PayloadAction::Write(bytes) ==> {
            let base = manual_control::message_channels(payload@);
            let map = channel_map.0@;
            &&& bytes@[0] == 0xff && bytes@[1] == 0xff
            &&& forall|k: int|
                0 <= k < 5 ==> bytes@[2 * k + 2] + 0x100 * bytes@[2 * k + 3] == base[(
                #[trigger] map[k]) as int]
            &&& bytes@[12] + 0x100 * bytes@[13] == base[map[0] as int] + base[map[1] as int]
                + base[map[2] as int] + base[map[3] as int] + base[map[4] as int]
        },
        action matches PayloadAction::Drop { expected, actual } ==> expected == 40 && actual
            == payload@.len(),
{
    proof {
        if payload@.len() == 40 {
            answers_carry_the_mapped_channels(channel_map@, payload@);
        }
    }
    match channels_from_payload(payload, channel_map) {
        Ok(channels) => PayloadAction::Write(build_packet(channels)),
        Err(PayloadError::InvalidManualControlSize { expected, actual }) => {
            PayloadAction::Drop { expected, actual }
        },
    }
}

/// What the bridge hears of its session and of its serial link.
#[derive(Debug, PartialEq, Eq)]
pub enum BridgeEvent {
    /// A payload has arrived.
    Received(Vec<u8>),
    /// Receiving failed, with an error of this text.
    ReceiveFailed(String),
    /// Writing the last packet failed, with an error of this text.
    WriteFailed(String),
}

impl View for BridgeEvent {
    type V = BridgeEventView;

    open spec fn view(&self) -> BridgeEventView {
        match self {
            BridgeEvent::Received(payload) => BridgeEventView::Received(payload@),
            BridgeEvent::ReceiveFailed(error) => BridgeEventView::Failed(
                BridgeEndView::Zenoh(error@),
            ),
            BridgeEvent::WriteFailed(error) => BridgeEventView::Failed(
                BridgeEndView::SerialWrite(error@),
            ),
        }
    }
}

/// What ended the bridge, with the text of the error.
#[derive(Debug, PartialEq, Eq)]
pub enum BridgeEnd {
    /// The session failed to receive.
    Zenoh(String),
    /// The serial link failed to write.
    SerialWrite(String),
}

impl View for BridgeEnd {
    type V = BridgeEndView;

    open spec fn view(&self) -> BridgeEndView {
        match self {
            BridgeEnd::Zenoh(error) => BridgeEndView::Zenoh(error@),
            BridgeEnd::SerialWrite(error) => BridgeEndView::SerialWrite(error@),
        }
    }
}

/// What the bridge does next.
#[derive(Debug, PartialEq, Eq)]
pub enum BridgeAction {
    /// Deal with a payload and go on.
    Handle(PayloadAction),
    /// End, and write nothing more.
    Stop(BridgeEnd),
}

impl BridgeAction {
    /// The bytes that the action sends to the encoder.
    pub open spec fn bytes(self) -> Seq<u8> {
        match self {
            BridgeAction::Handle(handled) => handled.bytes(),
            BridgeAction::Stop(_) => seq![],
        }
    }

    /// What ends the bridge, where the action does.
    pub open spec fn end(self) -> Option<BridgeEndView> {
        match self {
            BridgeAction::Handle(_) => None,
            BridgeAction::Stop(end) => Some(end@),
        }
    }
}

/// What ended the bridge, in mathematical terms.
pub ghost enum BridgeEndView {
    Zenoh(Seq<char>),
    SerialWrite(Seq<char>),
}

/// The event in mathematical terms: a payload, or a failure that ends the bridge.
pub ghost enum BridgeEventView {
    Received(Seq<u8>),
    Failed(BridgeEndView),
}

/// What the bridge has done so far: the bytes that it gave to the serial link, and what ended
/// it, once it has ended. Where a write ended it, the link may not have sent the last packet.
pub ghost struct BridgeState {
    pub written: Seq<u8>,
    pub ended: Option<BridgeEndView>,
}

/// The state after one more event. Once the bridge has ended, nothing changes.
pub open spec fn next_state(
    channel_map: Seq<usize>,
    state: BridgeState,
    event: BridgeEventView,
) -> BridgeState {
    if state.ended is Some {
        state
    } else {
        match event {
            BridgeEventView::Received(payload) => BridgeState {
                written: state.written + payload_bytes(channel_map, payload),
                ended: None,
            },
            BridgeEventView::Failed(end) => BridgeState {
                written: state.written,
                ended: Some(end),
            },
        }
    }
}

/// The state after a row of events.
pub open spec fn state_after(
    channel_map: Seq<usize>,
    events: Seq<BridgeEventView>,
) -> BridgeState
    decreases events.len(),
{
    if events.len() == 0 {
        BridgeState { written: seq![], ended: None }
    } else {
        next_state(channel_map, state_after(channel_map, events.drop_last()), events.last())
    }
}

/// The events of a run: the payloads in the order of their arrival, then a failure.
pub open spec fn run_events(payloads: Seq<Seq<u8>>, end: BridgeEndView) -> Seq<BridgeEventView> {
    received_events(payloads).push(BridgeEventView::Failed(end))
}

/// The events of the arrival of the payloads.
pub open spec fn received_events(payloads: Seq<Seq<u8>>) -> Seq<BridgeEventView> {
    payloads.map_values(|payload: Seq<u8>| BridgeEventView::Received(payload))
}

/// Decides what to do next: a payload is dealt with, and only a failure to receive or to write
/// ends the bridge.
pub fn next_action(event: BridgeEvent, channel_map: ChannelMap) -> (action: BridgeAction)
    requires
        event matches BridgeEvent::Received(payload) ==> payload@.len() == 40 ==> (forall|i: int|
            0 <= i < 5 ==> #[trigger] channel_map.0@[i] < 5),
    ensures
        event is Received <==> action is Handle,
        event matches BridgeEvent::Received(payload) ==> {
            &&& action->Handle_0 is Write <==> payload@.len() == 40
            &&& action->Handle_0 matches PayloadAction::Write(bytes) ==> {
                let base = manual_control::message_channels(payload@);
                let map = channel_map.0@;
                &&& bytes@[0] == 0xff && bytes@[1] == 0xff
                &&& forall|k: int|
                    0 <= k < 5 ==> bytes@[2 * k + 2] + 0x100 * bytes@[2 * k + 3] == base[(
                    #[trigger] map[k]) as int]
                &&& bytes@[12] + 0x100 * bytes@[13] == base[map[0] as int] + base[map[1] as int]
                    + base[map[2] as int] + base[map[3] as int] + base[map[4] as int]
            }
            &&& action->Handle_0 matches PayloadAction::Drop { expected, actual } ==> expected == 40
                && actual == payload@.len()
        },
        event matches BridgeEvent::Received(payload) ==> {
            &&& action matches BridgeAction::Handle(handled)
            &&& is_payload_action(channel_map@, payload@, handled)
        },
        event matches BridgeEvent::ReceiveFailed(error) ==> action == BridgeAction::Stop(
            BridgeEnd::Zenoh(error),
        ),
        event matches BridgeEvent::WriteFailed(error) ==> action == BridgeAction::Stop(
            BridgeEnd::SerialWrite(error),
        ),
        forall|state: BridgeState|
            state.ended is None ==> #[trigger] next_state(channel_map@, state, event@) == (
            BridgeState {
                written: state.written + action.bytes(),
                ended: action.end(),
            }),
{
    match event {
        BridgeEvent::Received(payload) => {
            BridgeAction::Handle(payload_action(payload.as_slice(), channel_map))
        },
        BridgeEvent::ReceiveFailed(error) => BridgeAction::Stop(BridgeEnd::Zenoh(error)),
        BridgeEvent::WriteFailed(error) => BridgeAction::Stop(BridgeEnd::SerialWrite(error)),
    }
}

/// The report of a dropped payload.
pub fn dropped_payload_report(expected: usize, actual: usize) -> (report: String)
    ensures
        report@ == "dropping manual control payload with "@ + text::decimal(actual as nat)
            + " bytes; expected "@ + text::decimal(expected as nat),
{
    let mut report: String = String::new();
    report.append("dropping manual control payload with ");
    text::push_decimal(&mut report, actual as u64);
    report.append(" bytes; expected ");
    text::push_decimal(&mut report, expected as u64);
    report
}

/// The report that the bridge is up.
pub fn listening_report(
    topic: &str,
    serial_device: &str,
    baud_rate: u32,
    channel_map: ChannelMap,
) -> (report: String)
    ensures
        report@ == "listening on "@ + topic@ + " and writing "@ + serial_device@ + " at "@
            + text::decimal(baud_rate as nat) + " baud with channel map ["@ + text::decimal_list(
            channel_map@,
        ) + "]"@,
        report@ == "listening on "@ + topic@ + " and writing "@ + serial_device@ + " at "@
            + text::decimal(baud_rate as nat) + " baud with channel map ["@ + text::decimal(
            channel_map.0@[0] as nat,
        ) + seq![',', ' '] + text::decimal(channel_map.0@[1] as nat) + seq![',', ' ']
            + text::decimal(channel_map.0@[2] as nat) + seq![',', ' '] + text::decimal(
            channel_map.0@[3] as nat,
        ) + seq![',', ' '] + text::decimal(channel_map.0@[4] as nat) + "]"@,
{
    let mut report: String = String::new();
    report.append("listening on ");
    report.append(topic);
    report.append(" and writing ");
    report.append(serial_device);
    report.append(" at ");
    text::push_decimal(&mut report, baud_rate as u64);
    report.append(" baud with channel map [");
    text::push_decimal_list(&mut report, channel_map.0.as_slice());
    report.append("]");
    proof {
        lemma_list_of_five(channel_map@);
    }
    report
}

/// The list of five numbers, written out.
proof fn lemma_list_of_five(numbers: Seq<usize>)
    requires
        numbers.len() == 5,
    ensures
        text::decimal_list(numbers) == text::decimal(numbers[0] as nat) + seq![',', ' ']
            + text::decimal(numbers[1] as nat) + seq![',', ' '] + text::decimal(numbers[2] as nat)
            + seq![',', ' '] + text::decimal(numbers[3] as nat) + seq![',', ' '] + text::decimal(
            numbers[4] as nat,
        ),
{
    let one = seq![numbers[0]];
    let two = one.push(numbers[1]);
    let three = two.push(numbers[2]);
    let four = three.push(numbers[3]);
    text::decimal_lists_grow_at_the_end(seq![], numbers[0]);
    text::decimal_lists_grow_at_the_end(one, numbers[1]);
    text::decimal_lists_grow_at_the_end(two, numbers[2]);
    text::decimal_lists_grow_at_the_end(three, numbers[3]);
    text::decimal_lists_grow_at_the_end(four, numbers[4]);
    assert(four.push(numbers[4]) =~= numbers);
}

/// The bytes that answer a message are the header, then for each entry of the map the channel of
/// the message that it names, then the sum of these five, each as two bytes, low byte first. Read
/// back as words they are the words of the answer.
pub proof fn answers_carry_the_mapped_channels(map: Seq<usize>, message: Seq<u8>)
    requires
        map.len() == 5,
        forall|k: int| 0 <= k < 5 ==> #[trigger] map[k] < 5,
    ensures
        ({
            let bytes = answer(map, message);
            let base = manual_control::message_channels(message);
            &&& bytes.len() == 14
            &&& bytes[0] == 0xff && bytes[1] == 0xff
            &&& forall|k: int|
                0 <= k < 5 ==> bytes[2 * k + 2] + 0x100 * bytes[2 * k + 3] == base[(
                #[trigger] map[k]) as int]
            &&& bytes[12] + 0x100 * bytes[13] == base[map[0] as int] + base[map[1] as int]
                + base[map[2] as int] + base[map[3] as int] + base[map[4] as int]
            &&& packet::words_of(bytes) == answer_words(map, message)
        }),
{
    manual_control::message_channels_stay_in_range(message);
    lemma_packet_of_mapped_channels(map, manual_control::message_channels(message));
}

/// The packet of base channels that a map has put into order.
proof fn lemma_packet_of_mapped_channels(map: Seq<usize>, base: Seq<u16>)
    requires
        map.len() == 5,
        forall|k: int| 0 <= k < 5 ==> #[trigger] map[k] < 5,
        base.len() == 5,
        forall|k: int| 0 <= k < 5 ==> #[trigger] base[k] <= 2000,
    ensures
        ({
            let words = packet::packet_words(channels::remapped(map, base));
            let bytes = packet::word_bytes(words);
            &&& bytes.len() == 14
            &&& bytes[0] == 0xff && bytes[1] == 0xff
            &&& forall|k: int|
                0 <= k < 5 ==> bytes[2 * k + 2] + 0x100 * bytes[2 * k + 3] == base[(
                #[trigger] map[k]) as int]
            &&& bytes[12] + 0x100 * bytes[13] == base[map[0] as int] + base[map[1] as int]
                + base[map[2] as int] + base[map[3] as int] + base[map[4] as int]
            &&& packet::words_of(bytes) == words
        }),
{
    let sent = channels::remapped(map, base);
    let words = packet::packet_words(sent);
    let bytes = packet::word_bytes(words);
    packet::words_read_back(words);
    packet::packet_bytes_hold_the_channels(sent);
    assert forall|k: int| 0 <= k < 5 implies bytes[2 * k + 2] + 0x100 * bytes[2 * k + 3] == base[(
    #[trigger] map[k]) as int] by {
        assert(sent[k] == base[map[k] as int]);
    }
}

/// A payload sends its answer where it has forty bytes, and else nothing.
pub proof fn only_messages_are_answered(map: Seq<usize>, payload: Seq<u8>)
    ensures
        is_message(payload) <==> payload.len() == 40,
        payload.len() == 40 ==> payload_bytes(map, payload) == answer(map, payload),
        payload.len() != 40 ==> payload_bytes(map, payload).len() == 0,
{
}

/// A write sends its bytes; a drop and a stop send none. Only a stop ends the bridge, with the
/// failure that it names.
pub proof fn actions_send_what_they_hold(
    bytes: [u8; PACKET_LEN],
    sizes: (usize, usize),
    handled: PayloadAction,
    end: BridgeEnd,
)
    ensures
        PayloadAction::Write(bytes).bytes() == bytes@,
        (PayloadAction::Drop { expected: sizes.0, actual: sizes.1 }).bytes().len() == 0,
        BridgeAction::Handle(handled).bytes() == handled.bytes(),
        BridgeAction::Handle(handled).end() is None,
        BridgeAction::Stop(end).bytes().len() == 0,
        BridgeAction::Stop(end).end() == Some(end@),
{
}

/// An event and an end are seen as the payload or the text that they hold.
pub proof fn views_keep_what_is_held(payload: Vec<u8>, error: String)
    ensures
        BridgeEvent::Received(payload)@ == BridgeEventView::Received(payload@),
        BridgeEvent::ReceiveFailed(error)@ == BridgeEventView::Failed(BridgeEndView::Zenoh(error@)),
        BridgeEvent::WriteFailed(error)@ == BridgeEventView::Failed(
            BridgeEndView::SerialWrite(error@),
        ),
        BridgeEnd::Zenoh(error)@ == BridgeEndView::Zenoh(error@),
        BridgeEnd::SerialWrite(error)@ == BridgeEndView::SerialWrite(error@),
{
}

/// A run starts with nothing written. While it lasts, a payload of forty bytes adds its answer to
/// what was written, a payload of another size adds nothing, and a failure ends it; once it has
/// ended, nothing changes.
pub proof fn runs_go_event_by_event(
    map: Seq<usize>,
    events: Seq<BridgeEventView>,
    payload: Seq<u8>,
    end: BridgeEndView,
    any: BridgeEventView,
)
    ensures
        ({
            let start = state_after(map, Seq::<BridgeEventView>::empty());
            let before = state_after(map, events);
            let received = state_after(map, events.push(BridgeEventView::Received(payload)));
            let failed = state_after(map, events.push(BridgeEventView::Failed(end)));
            &&& start.written.len() == 0 && start.ended is None
            &&& before.ended is None && payload.len() == 40 ==> received.written == before.written
                + answer(map, payload) && received.ended is None
            &&& before.ended is None && payload.len() != 40 ==> received == before
            &&& before.ended is None ==> failed.written == before.written && failed.ended == Some(
                end,
            )
            &&& before.ended is Some ==> state_after(map, events.push(any)) == before
            &&& state_after(map, events.push(any)) == next_state(map, before, any)
        }),
{
    assert(events.push(BridgeEventView::Received(payload)).drop_last() =~= events);
    assert(events.push(BridgeEventView::Failed(end)).drop_last() =~= events);
    assert(events.push(any).drop_last() =~= events);
    let before = state_after(map, events);
    assert(before.written + Seq::<u8>::empty() =~= before.written);
}

/// The events of a run are its payloads, each as received, and then the failure.
pub proof fn run_events_are_payloads_then_failure(payloads: Seq<Seq<u8>>, end: BridgeEndView)
    ensures
        received_events(payloads).len() == payloads.len(),
        forall|i: int|
            0 <= i < payloads.len() ==> received_events(payloads)[i] == BridgeEventView::Received(
                #[trigger] payloads[i],
            ),
        run_events(payloads, end) == received_events(payloads) + seq![BridgeEventView::Failed(end)],
{
    assert(run_events(payloads, end) =~= received_events(payloads) + seq![
        BridgeEventView::Failed(end),
    ]);
}

/// A further payload of forty bytes adds its answer at the end of the answers, and one of any
/// other size leaves them as they are.
pub proof fn answers_grow_with_messages(
    map: Seq<usize>,
    payloads: Seq<Seq<u8>>,
    next: Seq<u8>,
)
    ensures
        answers(map, Seq::<Seq<u8>>::empty()).len() == 0,
        next.len() == 40 ==> answers(map, payloads.push(next)) == answers(map, payloads).push(
            answer(map, next),
        ),
        next.len() != 40 ==> answers(map, payloads.push(next)) == answers(map, payloads),
{
    let pred = |payload: Seq<u8>| is_message(payload);
    reveal(Seq::filter);
    assert(payloads.push(next).drop_last() =~= payloads);
    assert(pred(next) <==> next.len() == 40);
    if next.len() == 40 {
        assert(answers(map, payloads.push(next)) =~= answers(map, payloads).push(
            answer(map, next),
        ));
    }
}

/// Every channel of a packet that answers a message lies between the shortest and the longest
/// pulse width, its checksum is the plain sum of the channels, and none of its other
/// words equals the header.
pub proof fn answers_are_well_framed(channel_map: Seq<usize>, message: Seq<u8>)
    requires
        channel_map.len() == NUM_CHANNELS,
        channels::in_range(channel_map),
        message.len() == MANUAL_CONTROL_PAYLOAD_SIZE,
    ensures
        ({
            let words = answer_words(channel_map, message);
            &&& words.len() == NUM_CHANNELS + 2
            &&& words[0] == PACKET_HEADER
            &&& forall|i: int|
                1 <= i <= NUM_CHANNELS ==> PWM_MIN <= #[trigger] words[i] <= PWM_MAX
            &&& words[6] == words[1] + words[2] + words[3] + words[4] + words[5]
            &&& forall|i: int| 1 <= i < words.len() ==> words[i] != PACKET_HEADER
        }),
{
    manual_control::message_channels_stay_in_range(message);
    let base = manual_control::message_channels(message);
    let sent = channels::remapped(channel_map, base);
    assert forall|i: int| 0 <= i < NUM_CHANNELS implies PWM_MIN <= #[trigger] sent[i]
        <= PWM_MAX by {
        assert(sent[i] == base[channel_map[i] as int]);
    }
}

/// A message that is not usable is answered with the failsafe channels in the order of the
/// map, whatever the sticks say.
pub proof fn unusable_messages_are_answered_with_failsafe(
    channel_map: Seq<usize>,
    message: Seq<u8>,
)
    requires
        channel_map.len() == NUM_CHANNELS,
        channels::in_range(channel_map),
        message.len() == MANUAL_CONTROL_PAYLOAD_SIZE,
        !manual_control::is_usable(message[35]),
    ensures
        answer_words(channel_map, message) == packet::packet_words(
            channels::remapped(channel_map, channels::FAILSAFE_CHANNELS@),
        ),
{
}

/// The answers of the messages among the payloads, in the order of their arrival.
pub open spec fn answers(channel_map: Seq<usize>, payloads: Seq<Seq<u8>>) -> Seq<Seq<u8>> {
    payloads.filter(|payload: Seq<u8>| is_message(payload)).map_values(
        |message: Seq<u8>| answer(channel_map, message),
    )
}

/// A run writes exactly the answers of its messages, one after the other in the order of their
/// arrival, and ends with the failure that ended it, whether to receive or to write.
pub proof fn run_writes_answers_in_order(
    channel_map: Seq<usize>,
    payloads: Seq<Seq<u8>>,
    end: BridgeEndView,
)
    ensures
        state_after(channel_map, run_events(payloads, end)) == (BridgeState {
            written: answers(channel_map, payloads).flatten(),
            ended: Some(end),
        }),
{
    lemma_received_payloads_are_answered(channel_map, payloads);
    assert(run_events(payloads, end).drop_last() =~= received_events(payloads));
}

/// Nothing is written after a failure: whatever comes after the end of the bridge changes
/// neither what it wrote nor what ended it.
pub proof fn nothing_follows_the_end(
    channel_map: Seq<usize>,
    events: Seq<BridgeEventView>,
    later: Seq<BridgeEventView>,
)
    requires
        state_after(channel_map, events).ended is Some,
    ensures
        state_after(channel_map, events + later) == state_after(channel_map, events),
    decreases later.len(),
{
    if later.len() == 0 {
        assert(events + later =~= events);
    } else {
        nothing_follows_the_end(channel_map, events, later.drop_last());
        assert((events + later).drop_last() =~= events + later.drop_last());
    }
}

/// Payloads that are no messages leave no trace: two runs whose messages are the same, in the
/// same order, and that end alike write the same bytes.
pub proof fn dropped_payloads_leave_no_trace(
    channel_map: Seq<usize>,
    a: Seq<Seq<u8>>,
    b: Seq<Seq<u8>>,
    end: BridgeEndView,
)
    requires
        a.filter(|payload: Seq<u8>| is_message(payload)) == b.filter(
            |payload: Seq<u8>| is_message(payload),
        ),
    ensures
        state_after(channel_map, run_events(a, end)) == state_after(
            channel_map,
            run_events(b, end),
        ),
{
    run_writes_answers_in_order(channel_map, a, end);
    run_writes_answers_in_order(channel_map, b, end);
}

/// While payloads arrive, the bridge goes on and writes the answers of the messages.
proof fn lemma_received_payloads_are_answered(channel_map: Seq<usize>, payloads: Seq<Seq<u8>>)
    ensures
        state_after(channel_map, received_events(payloads)) == (BridgeState {
            written: answers(channel_map, payloads).flatten(),
            ended: None,
        }),
    decreases payloads.len(),
{
    let pred = |payload: Seq<u8>| is_message(payload);
    let all = answers(channel_map, payloads);
    reveal(Seq::filter);
    if payloads.len() == 0 {
        assert(all =~= seq![]);
    } else {
        let before = payloads.drop_last();
        let earlier = answers(channel_map, before);
        lemma_received_payloads_are_answered(channel_map, before);
        assert(received_events(payloads).drop_last() =~= received_events(before));
        if is_message(payloads.last()) {
            assert(pred(payloads.last()));
            assert(all =~= earlier.push(answer(channel_map, payloads.last())));
            all.lemma_flatten_and_flatten_alt_are_equivalent();
            earlier.lemma_flatten_and_flatten_alt_are_equivalent();
            assert(all.drop_last() =~= earlier);
        } else {
            assert(!pred(payloads.last()));
            assert(all =~= earlier);
        }
    }
}

} // verus!
