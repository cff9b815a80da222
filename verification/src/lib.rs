//! Verified core of a bridge from manual-control messages to a PPM encoder.
//!
//! A message becomes five pulse widths ([`manual_control_to_channels`]), a [`ChannelMap`] puts
//! them into the order that the receiver expects, and [`build_packet`] frames them for the
//! serial link. [`payload_action`] does all of it for one payload as it arrives, and
//! [`next_action`] says when the bridge ends.

pub mod bridge;
pub mod channels;
pub mod manual_control;
pub mod packet;
pub mod pwm;
pub mod session;
pub mod text;

pub use bridge::{
    dropped_payload_report, listening_report, next_action, payload_action, BridgeAction,
    BridgeEnd, BridgeEvent, PayloadAction,
};
pub use channels::{
    channel_map_from_slice, ChannelMap, ChannelMapError, PpmChannels, DEFAULT_CHANNEL_MAP,
    FAILSAFE_CHANNELS, NUM_CHANNELS,
};
pub use manual_control::{
    channels_from_payload, manual_control_to_channels, PayloadError, MANUAL_CONTROL_PAYLOAD_SIZE,
};
pub use packet::{build_packet, checksum, PACKET_HEADER, PACKET_LEN};
pub use session::{client_config, endpoints_json5, settled_config, zenoh_config};
