//! The serial packet that the encoder reads.
//!
//! A packet is a row of little-endian 16-bit words: the header, one word for each channel, and
//! the wrapping sum of the channel words.

use crate::channels;
use crate::channels::{PpmChannels, NUM_CHANNELS};
use vstd::prelude::*;

verus! {

/// The number of bytes of a packet.
pub const PACKET_LEN: usize = 14;

/// The word that starts a packet.
pub const PACKET_HEADER: u16 = 0xffff;

/// The sum of the five channel values.
pub open spec fn channel_total(channels: Seq<u16>) -> int {
    channels[0] + channels[1] + channels[2] + channels[3] + channels[4]
}

/// The sum of the five channel values, reduced to sixteen bits.
pub open spec fn channel_checksum(channels: Seq<u16>) -> u16 {
    (channel_total(channels) % 0x1_0000) as u16
}

/// The bytes of the words, low byte before high byte.
pub open spec fn word_bytes(words: Seq<u16>) -> Seq<u8> {
    Seq::new(
        2 * words.len(),
        |i: int|
            if i % 2 == 0 {
                (words[i / 2] % 0x100) as u8
            } else {
                (words[i / 2] / 0x100) as u8
            },
    )
}

/// The words that the bytes hold, low byte before high byte.
pub open spec fn words_of(bytes: Seq<u8>) -> Seq<u16> {
    Seq::new(bytes.len() / 2, |k: int| (bytes[2 * k] + 0x100 * bytes[2 * k + 1]) as u16)
}

/// The words of the packet that carries the channels.
pub open spec fn packet_words(channels: Seq<u16>) -> Seq<u16> {
    seq![PACKET_HEADER] + channels + seq![channel_checksum(channels)]
}

/// The wrapping sum of the channels.
pub fn checksum(channels: PpmChannels) -> (sum: u16)
    ensures
        sum == channel_checksum(channels@),
        sum == channel_total(channels@) % 0x1_0000,
        sum == (channels.0@[0] + channels.0@[1] + channels.0@[2] + channels.0@[3] + channels.0@[4])
            % 0x1_0000,
{
    let mut sum: u16 = 0;
    let mut i: usize = 0;
    while i < NUM_CHANNELS
        invariant
            i <= NUM_CHANNELS,
            sum == prefix_total(channels@, i as nat) % 0x1_0000,
        decreases NUM_CHANNELS - i,
    {
        sum = sum.wrapping_add(channels.0[i]);
        i = i + 1;
    }
    proof {
        reveal_with_fuel(prefix_total, 6);
    }
    sum
}

/// The sum of the first `n` words.
spec fn prefix_total(words: Seq<u16>, n: nat) -> int
    decreases n,
{
    if n == 0 {
        0
    } else {
        prefix_total(words, (n - 1) as nat) + words[n - 1]
    }
}

/// Writes `word` into `packet` at the byte position `2 * index`, low byte first.
fn put_word(packet: &mut [u8; PACKET_LEN], index: usize, word: u16)
    requires
        index < 7,
    ensures
        final(packet)@ == old(packet)@.update(2 * index, (word % 0x100) as u8).update(
            2 * index + 1,
            (word / 0x100) as u8,
        ),
{
    packet[2 * index] = (word % 0x100) as u8;
    packet[2 * index + 1] = (word / 0x100) as u8;
}

/// The packet that carries the channels.
pub fn build_packet(channels: PpmChannels) -> (packet: [u8; PACKET_LEN])
    ensures
        packet@ == word_bytes(packet_words(channels@)),
        packet@[0] == 0xff,
        packet@[1] == 0xff,
        forall|k: int|
            0 <= k < 5 ==> packet@[2 * k + 2] + 0x100 * packet@[2 * k + 3]
                == #[trigger] channels.0@[k],
        packet@[12] + 0x100 * packet@[13] == (channels.0@[0] + channels.0@[1] + channels.0@[2]
            + channels.0@[3] + channels.0@[4]) % 0x1_0000,
{
    let ghost words = packet_words(channels@);
    let mut packet: [u8; PACKET_LEN] = [0; PACKET_LEN];
    put_word(&mut packet, 0, PACKET_HEADER);
    let mut i: usize = 0;
    while i < NUM_CHANNELS
        invariant
            i <= NUM_CHANNELS,
            words == packet_words(channels@),
            forall|b: int| 0 <= b < 2 * (i + 1) ==> packet@[b] == word_bytes(words)[b],
        decreases NUM_CHANNELS - i,
    {
        put_word(&mut packet, 1 + i, channels.0[i]);
        i = i + 1;
    }
    put_word(&mut packet, 1 + NUM_CHANNELS, checksum(channels));
    assert(packet@ =~= word_bytes(words));
    proof {
        packet_bytes_hold_the_channels(channels@);
    }
    packet
}

/// Reading the words of a byte row undoes writing them.
pub proof fn words_read_back(words: Seq<u16>)
    ensures
        words_of(word_bytes(words)) == words,
{
    let bytes = word_bytes(words);
    assert forall|k: int| 0 <= k < words.len() implies words_of(bytes)[k] == words[k] by {
        assert(bytes[2 * k] == words[k] % 0x100);
        assert(bytes[2 * k + 1] == words[k] / 0x100);
    }
    assert(words_of(bytes) =~= words);
}

/// A word is written as its low byte, then its high byte.
pub proof fn words_are_little_endian(words: Seq<u16>, k: int)
    requires
        0 <= k < words.len(),
    ensures
        word_bytes(words).len() == 2 * words.len(),
        word_bytes(words)[2 * k] + 0x100 * word_bytes(words)[2 * k + 1] == words[k],
{
    assert(word_bytes(words)[2 * k] == words[k] % 0x100);
    assert(word_bytes(words)[2 * k + 1] == words[k] / 0x100);
}

/// A word is read from its low byte, then its high byte.
pub proof fn bytes_are_read_little_endian(bytes: Seq<u8>, k: int)
    requires
        0 <= 2 * k < bytes.len() - 1,
    ensures
        words_of(bytes).len() == bytes.len() / 2,
        words_of(bytes)[k] == bytes[2 * k] + 0x100 * bytes[2 * k + 1],
{
}

/// The words of a packet are the header, the five channels in their order, and their sum reduced
/// to sixteen bits.
pub proof fn packets_hold_header_channels_and_sum(channels: Seq<u16>)
    requires
        channels.len() == 5,
    ensures
        packet_words(channels).len() == 7,
        packet_words(channels)[0] == 0xffff,
        forall|k: int| 0 <= k < 5 ==> packet_words(channels)[k + 1] == #[trigger] channels[k],
        packet_words(channels)[6] == (channels[0] + channels[1] + channels[2] + channels[3]
            + channels[4]) % 0x1_0000,
{
}

/// The bytes of a packet are those of the header, then of each channel, then of the sum of the
/// channels reduced to sixteen bits, low byte before high byte.
pub proof fn packet_bytes_hold_the_channels(channels: Seq<u16>)
    requires
        channels.len() == 5,
    ensures
        ({
            let bytes = word_bytes(packet_words(channels));
            &&& bytes.len() == 14
            &&& bytes[0] == 0xff && bytes[1] == 0xff
            &&& forall|k: int|
                0 <= k < 5 ==> bytes[2 * k + 2] + 0x100 * bytes[2 * k + 3] == #[trigger] channels[k]
            &&& bytes[12] + 0x100 * bytes[13] == (channels[0] + channels[1] + channels[2]
                + channels[3] + channels[4]) % 0x1_0000
        }),
{
    let words = packet_words(channels);
    words_are_little_endian(words, 0);
    words_are_little_endian(words, 6);
    let bytes = word_bytes(words);
    assert forall|k: int| 0 <= k < 5 implies bytes[2 * k + 2] + 0x100 * bytes[2 * k + 3]
        == #[trigger] channels[k] by {
        words_are_little_endian(words, k + 1);
        assert(words[k + 1] == channels[k]);
    }
}

/// A packet reads back as the header, the channels that it was built from, and the wrapping
/// sum of the channels that it carries.
pub proof fn packet_reads_back(channels: Seq<u16>)
    requires
        channels.len() == NUM_CHANNELS,
    ensures
        word_bytes(packet_words(channels)).len() == PACKET_LEN,
        ({
            let words = words_of(word_bytes(packet_words(channels)));
            &&& words.len() == NUM_CHANNELS + 2
            &&& words.first() == PACKET_HEADER
            &&& words.subrange(1, NUM_CHANNELS + 1) == channels
            &&& words.last() == channel_checksum(words.subrange(1, NUM_CHANNELS + 1))
        }),
{
    words_read_back(packet_words(channels));
    assert(packet_words(channels).subrange(1, NUM_CHANNELS + 1) =~= channels);
}

/// Two packets with the same bytes carry the same channels.
pub proof fn packet_determines_channels(a: Seq<u16>, b: Seq<u16>)
    requires
        a.len() == NUM_CHANNELS,
        b.len() == NUM_CHANNELS,
        word_bytes(packet_words(a)) == word_bytes(packet_words(b)),
    ensures
        a == b,
{
    packet_reads_back(a);
    packet_reads_back(b);
}

/// A change of a single channel always changes the checksum.
pub proof fn checksum_tells_single_changes(channels: Seq<u16>, index: int, value: u16)
    requires
        channels.len() == NUM_CHANNELS,
        0 <= index < NUM_CHANNELS,
        value != channels[index],
    ensures
        channel_checksum(channels.update(index, value)) != channel_checksum(channels),
{
    let changed = channels.update(index, value);
    assert(channel_total(changed) == channel_total(channels) + value - channels[index]);
}

/// Putting the channels into another order leaves the checksum as it is.
pub proof fn checksum_ignores_order(map: Seq<usize>, channels: Seq<u16>)
    requires
        map.len() == NUM_CHANNELS,
        channels.len() == NUM_CHANNELS,
        channels::in_range(map),
        map.no_duplicates(),
    ensures
        channel_checksum(channels::remapped(map, channels)) == channel_checksum(channels),
{
    let part = |i: int, k: int|
        if map[i] == k {
            channels[k] as int
        } else {
            0int
        };
    assert forall|i: int| 0 <= i < 5 implies channels[map[i] as int] == part(i, 0) + part(i, 1)
        + part(i, 2) + part(i, 3) + part(i, 4) by {}
    assert forall|k: int| 0 <= k < 5 implies channels[k] == part(0, k) + part(1, k) + part(2, k)
        + part(3, k) + part(4, k) by {
        assert(map[0] == k || map[1] == k || map[2] == k || map[3] == k || map[4] == k);
    }
    let moved = channels::remapped(map, channels);
    assert(channel_total(moved) == channel_total(channels));
}

} // verus!
