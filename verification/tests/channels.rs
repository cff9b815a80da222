use synapse_ppm_bridge::{
    channel_map_from_slice, ChannelMap, ChannelMapError, PpmChannels, DEFAULT_CHANNEL_MAP,
};

#[test]
fn applies_channel_map_to_base_channels() {
    let map = ChannelMap::new([1, 2, 0, 3, 4]).unwrap();
    assert_eq!(
        map.apply(PpmChannels([1000, 1500, 1600, 1700, 2000])),
        PpmChannels([1500, 1600, 1000, 1700, 2000])
    );
}

#[test]
fn rejects_bad_channel_maps() {
    assert_eq!(
        channel_map_from_slice(&[0, 1, 2]).unwrap_err(),
        ChannelMapError::WrongLength {
            expected: 5,
            actual: 3
        }
    );
    assert_eq!(
        channel_map_from_slice(&[0, 1, 2, 3, 5]).unwrap_err(),
        ChannelMapError::OutOfRange(5)
    );
}

#[test]
fn the_first_entry_out_of_range_is_reported() {
    assert_eq!(
        ChannelMap::new([4, 9, 0, 7, usize::MAX]),
        Err(ChannelMapError::OutOfRange(9))
    );
    assert_eq!(
        channel_map_from_slice(&[usize::MAX, 0, 0, 0, 6]),
        Err(ChannelMapError::OutOfRange(usize::MAX))
    );
}

#[test]
fn length_is_looked_at_before_range() {
    assert_eq!(
        channel_map_from_slice(&[]),
        Err(ChannelMapError::WrongLength {
            expected: 5,
            actual: 0
        })
    );
    assert_eq!(
        channel_map_from_slice(&[9; 6]),
        Err(ChannelMapError::WrongLength {
            expected: 5,
            actual: 6
        })
    );
}

#[test]
fn slices_and_arrays_make_the_same_map() {
    assert_eq!(
        channel_map_from_slice(&[4, 3, 3, 1, 0]),
        ChannelMap::new([4, 3, 3, 1, 0])
    );
    assert_eq!(
        channel_map_from_slice(&[4, 3, 5, 1, 8]),
        ChannelMap::new([4, 3, 5, 1, 8])
    );
}

#[test]
fn errors_describe_themselves() {
    assert_eq!(
        channel_map_from_slice(&[0; 12]).unwrap_err().message(),
        "expected 5 channel-map entries, got 12"
    );
    assert_eq!(
        ChannelMap::new([0, 1, 2, 3, 5]).unwrap_err().message(),
        "channel map entry 5 is out of range 0..4"
    );
    assert_eq!(
        ChannelMapError::OutOfRange(1_020_304).message(),
        "channel map entry 1020304 is out of range 0..4"
    );
}

#[test]
fn default_map_leaves_channels_alone() {
    let channels = PpmChannels([1, 2, 3, 4, 65535]);
    assert_eq!(ChannelMap::default(), ChannelMap(DEFAULT_CHANNEL_MAP));
    assert_eq!(ChannelMap::default().apply(channels), channels);
}

#[test]
fn maps_may_repeat_a_channel() {
    let map = ChannelMap::new([2, 2, 2, 0, 0]).unwrap();
    assert_eq!(
        map.apply(PpmChannels([10, 20, 30, 40, 50])),
        PpmChannels([30, 30, 30, 10, 10])
    );
}

#[test]
fn two_maps_in_a_row_act_as_one() {
    let first = ChannelMap::new([1, 2, 0, 3, 4]).unwrap();
    let second = ChannelMap::new([4, 0, 0, 2, 1]).unwrap();
    let both = ChannelMap::new([4, 1, 1, 0, 2]).unwrap();
    let channels = PpmChannels([10, 20, 30, 40, 50]);
    assert_eq!(second.apply(first.apply(channels)), both.apply(channels));
}
