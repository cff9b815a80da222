//! The output channels of the bridge and the map that reorders them.

use crate::text;
use vstd::prelude::*;
use vstd::string::*;

verus! {

/// The number of channels that one packet carries.
pub const NUM_CHANNELS: usize = 5;

/// The map that leaves every channel in its place.
pub const DEFAULT_CHANNEL_MAP: [usize; NUM_CHANNELS] = [0, 1, 2, 3, 4];

/// What is sent while no usable command is at hand: idle throttle, centred sticks, mode high.
pub const FAILSAFE_CHANNELS: [u16; NUM_CHANNELS] = [1000, 1500, 1500, 1500, 2000];

/// The pulse widths of the channels, in microseconds.
///
/// Before a [`ChannelMap`] is applied the order is throttle, roll, pitch, yaw, mode.
#[derive(Debug, Clone, Copy, PartialEq, Eq)]
pub struct PpmChannels(pub [u16; NUM_CHANNELS]);

impl View for PpmChannels {
    type V = Seq<u16>;

    open spec fn view(&self) -> Seq<u16> {
        self.0@
    }
}

/// For each output channel the index of the base channel that it carries.
#[derive(Debug, Clone, Copy, PartialEq, Eq)]
pub struct ChannelMap(pub [usize; NUM_CHANNELS]);

impl View for ChannelMap {
    type V = Seq<usize>;

    open spec fn view(&self) -> Seq<usize> {
        self.0@
    }
}

/// Why a list of indices is no channel map.
#[derive(Debug, Clone, PartialEq, Eq)]
pub enum ChannelMapError {
    WrongLength { expected: usize, actual: usize },
    OutOfRange(usize),
}

impl ChannelMapError {
    /// The text that describes the error.
    pub open spec fn spec_message(self) -> Seq<char> {
        match self {
            ChannelMapError::WrongLength { expected, actual } => {
                "expected "@ + text::decimal(expected as nat) + " channel-map entries, got "@
                    + text::decimal(actual as nat)
            },
            ChannelMapError::OutOfRange(channel) => {
                "channel map entry "@ + text::decimal(channel as nat) + " is out of range 0.."@
                    + text::decimal((NUM_CHANNELS - 1) as nat)
            },
        }
    }

    /// Describes the error in words.
    pub fn message(&self) -> (text: String)
        ensures
            text@ == self.spec_message(),
            *self matches ChannelMapError::WrongLength { expected, actual } ==> text@
                == "expected "@ + text::decimal(expected as nat) + " channel-map entries, got "@
                + text::decimal(actual as nat),
            *self matches ChannelMapError::OutOfRange(channel) ==> text@ == "channel map entry "@
                + text::decimal(channel as nat) + " is out of range 0.."@ + text::decimal(4),
    {
        let mut text: String = String::new();
        match self {
            ChannelMapError::WrongLength { expected, actual } => {
                text.append("expected ");
                text::push_decimal(&mut text, *expected as u64);
                text.append(" channel-map entries, got ");
                text::push_decimal(&mut text, *actual as u64);
            },
            ChannelMapError::OutOfRange(channel) => {
                text.append("channel map entry ");
                text::push_decimal(&mut text, *channel as u64);
                text.append(" is out of range 0..");
                text::push_decimal(&mut text, (NUM_CHANNELS - 1) as u64);
            },
        }
        text
    }
}

/// Whether every entry is the index of a channel.
pub open spec fn in_range(entries: Seq<usize>) -> bool {
    forall|i: int| 0 <= i < entries.len() ==> entries[i] < NUM_CHANNELS
}

/// Whether position `i` holds the first entry that is the index of no channel.
pub open spec fn first_out_of_range(entries: Seq<usize>, i: int) -> bool {
    &&& 0 <= i < entries.len()
    &&& entries[i] >= NUM_CHANNELS
    &&& forall|j: int| 0 <= j < i ==> entries[j] < NUM_CHANNELS
}

/// Whether `result` is the right answer to a request for a map with the given entries.
pub open spec fn is_map_result(
    entries: Seq<usize>,
    result: Result<ChannelMap, ChannelMapError>,
) -> bool {
    if entries.len() != NUM_CHANNELS {
        &&& result matches Err(ChannelMapError::WrongLength { expected, actual })
        &&& expected == NUM_CHANNELS
        &&& actual == entries.len()
    } else if in_range(entries) {
        result is Ok && result->Ok_0@ == entries
    } else {
        exists|i: int| #[trigger]
            first_out_of_range(entries, i) && result == Err::<ChannelMap, _>(
                ChannelMapError::OutOfRange(entries[i]),
            )
    }
}

/// The channels in the order that the map asks for.
pub open spec fn remapped(map: Seq<usize>, channels: Seq<u16>) -> Seq<u16> {
    Seq::new(map.len(), |i: int| channels[map[i] as int])
}

impl ChannelMap {
    /// Whether every entry is the index of a channel.
    pub open spec fn wf(self) -> bool {
        in_range(self@)
    }

    /// The map with the given entries, or an error that names the first entry out of range.
    pub fn new(channels: [usize; NUM_CHANNELS]) -> (result: Result<Self, ChannelMapError>)
        ensures
            is_map_result(channels@, result),
            result is Ok <==> in_range(channels@),
            result matches Ok(map) ==> map.0 == channels && map.wf(),
            result is Ok <==> (forall|i: int| 0 <= i < 5 ==> #[trigger] channels@[i] < 5),
            result matches Err(error) ==> exists|i: int|
                0 <= i < 5 && #[trigger] channels@[i] >= 5 && error == ChannelMapError::OutOfRange(
                    channels@[i],
                ) && (forall|j: int| 0 <= j < i ==> #[trigger] channels@[j] < 5),
    {
        let mut i: usize = 0;
        while i < NUM_CHANNELS
            invariant
                i <= NUM_CHANNELS,
                forall|j: int| 0 <= j < i ==> channels@[j] < NUM_CHANNELS,
            decreases NUM_CHANNELS - i,
        {
            if channels[i] >= NUM_CHANNELS {
                assert(first_out_of_range(channels@, i as int));
                return Err(ChannelMapError::OutOfRange(channels[i]));
            }
            i = i + 1;
        }
        Ok(Self(channels))
    }

    /// The channels in the order that this map asks for.
    pub fn apply(self, channels: PpmChannels) -> (result: PpmChannels)
        requires
            forall|i: int| 0 <= i < 5 ==> #[trigger] self.0@[i] < 5,
        ensures
            forall|i: int|
                0 <= i < 5 ==> #[trigger] result.0@[i] == channels.0@[self.0@[i] as int],
            result@ == remapped(self@, channels@),
    {
        let mut out: [u16; NUM_CHANNELS] = [0; NUM_CHANNELS];
        let mut i: usize = 0;
        while i < NUM_CHANNELS
            invariant
                i <= NUM_CHANNELS,
                self.wf(),
                forall|j: int| 0 <= j < i ==> out@[j] == channels@[self@[j] as int],
            decreases NUM_CHANNELS - i,
        {
            out[i] = channels.0[self.0[i]];
            i = i + 1;
        }
        PpmChannels(out)
    }
}

impl Default for ChannelMap {
    fn default() -> (map: Self)
        ensures
            map.0@ == seq![0usize, 1, 2, 3, 4],
            map@ == seq![0usize, 1, 2, 3, 4],
            map@ == DEFAULT_CHANNEL_MAP@,
            map.wf(),
    {
        Self(DEFAULT_CHANNEL_MAP)
    }
}

/// The map whose entries are those of the slice, or an error when the slice has the wrong
/// length or holds an entry out of range.
pub fn channel_map_from_slice(channels: &[usize]) -> (result: Result<ChannelMap, ChannelMapError>)
    ensures
        is_map_result(channels@, result),
        result is Ok <==> channels@.len() == NUM_CHANNELS && in_range(channels@),
        result matches Ok(map) ==> map.wf(),
        result is Ok <==> channels@.len() == 5 && (forall|i: int|
            0 <= i < 5 ==> #[trigger] channels@[i] < 5),
        result matches Ok(map) ==> map.0@ == channels@,
        channels@.len() != 5 ==> (result matches Err(
            ChannelMapError::WrongLength { expected, actual },
        ) && expected == 5 && actual == channels@.len()),
        channels@.len() == 5 ==> (result matches Err(error) ==> exists|i: int|
            0 <= i < 5 && #[trigger] channels@[i] >= 5 && error == ChannelMapError::OutOfRange(
                channels@[i],
            ) && (forall|j: int| 0 <= j < i ==> #[trigger] channels@[j] < 5)),
{
    if channels.len() != NUM_CHANNELS {
        return Err(
            ChannelMapError::WrongLength { expected: NUM_CHANNELS, actual: channels.len() },
        );
    }
    let entries: [usize; NUM_CHANNELS] = [
        channels[0],
        channels[1],
        channels[2],
        channels[3],
        channels[4],
    ];
    assert(entries@ =~= channels@);
    ChannelMap::new(entries)
}

/// The answer to a request for a map is settled by its entries.
pub proof fn map_result_is_unique(
    entries: Seq<usize>,
    a: Result<ChannelMap, ChannelMapError>,
    b: Result<ChannelMap, ChannelMapError>,
)
    requires
        is_map_result(entries, a),
        is_map_result(entries, b),
    ensures
        a == b,
{
    if entries.len() == NUM_CHANNELS && in_range(entries) {
        assert(a->Ok_0.0 =~= b->Ok_0.0);
    } else if entries.len() == NUM_CHANNELS {
        let i = choose|i: int| #[trigger]
            first_out_of_range(entries, i) && a == Err::<ChannelMap, _>(
                ChannelMapError::OutOfRange(entries[i]),
            );
        let j = choose|j: int| #[trigger]
            first_out_of_range(entries, j) && b == Err::<ChannelMap, _>(
                ChannelMapError::OutOfRange(entries[j]),
            );
        assert(i == j);
    }
}

/// Each output channel is the base channel that its entry of the map names.
pub proof fn entries_name_base_channels(map: Seq<usize>, channels: Seq<u16>, i: int)
    requires
        0 <= i < map.len(),
        map[i] < channels.len(),
    ensures
        remapped(map, channels).len() == map.len(),
        remapped(map, channels)[i] == channels[map[i] as int],
{
}

/// An output channel changes only with the base channel that its entry names: two rows of base
/// channels that agree there give the same output channel.
pub proof fn output_depends_on_its_entry_alone(
    maps: (Seq<usize>, Seq<usize>),
    rows: (Seq<u16>, Seq<u16>),
    i: int,
)
    requires
        0 <= i < maps.0.len(),
        i < maps.1.len(),
        maps.0[i] < rows.0.len(),
        maps.1[i] < rows.1.len(),
        rows.0[maps.0[i] as int] == rows.1[maps.1[i] as int],
    ensures
        remapped(maps.0, rows.0)[i] == remapped(maps.1, rows.1)[i],
{
}

/// A map is well formed exactly when each of its five entries is at most four, and the view of a
/// map or of channels is the row that it holds.
pub proof fn views_are_rows(map: ChannelMap, channels: PpmChannels)
    ensures
        map@ == map.0@,
        channels@ == channels.0@,
        map.wf() <==> (forall|i: int| 0 <= i < 5 ==> #[trigger] map.0@[i] < 5),
{
}

/// The default map leaves the channels as they are.
pub proof fn default_map_keeps_order(channels: Seq<u16>)
    requires
        channels.len() == NUM_CHANNELS,
    ensures
        remapped(DEFAULT_CHANNEL_MAP@, channels) == channels,
{
    assert(remapped(DEFAULT_CHANNEL_MAP@, channels) =~= channels);
}

/// A map invents nothing: each output channel is one of the base channels.
pub proof fn remapped_channels_come_from_base(map: Seq<usize>, channels: Seq<u16>)
    requires
        map.len() == NUM_CHANNELS,
        channels.len() == NUM_CHANNELS,
        in_range(map),
    ensures
        remapped(map, channels).len() == NUM_CHANNELS,
        forall|i: int|
            0 <= i < NUM_CHANNELS ==> channels.contains(#[trigger] remapped(map, channels)[i]),
{
}

/// Applying one map after another is applying the map of their entries.
pub proof fn remapping_composes(first: Seq<usize>, second: Seq<usize>, channels: Seq<u16>)
    requires
        first.len() == NUM_CHANNELS,
        second.len() == NUM_CHANNELS,
        channels.len() == NUM_CHANNELS,
        in_range(first),
        in_range(second),
    ensures
        ({
            let both = Seq::new(second.len(), |i: int| first[second[i] as int]);
            &&& in_range(both)
            &&& remapped(second, remapped(first, channels)) == remapped(both, channels)
        }),
{
    let both = Seq::new(second.len(), |i: int| first[second[i] as int]);
    assert(remapped(second, remapped(first, channels)) =~= remapped(both, channels));
}

} // verus!
