# synapse_ppm_bridge

A bridge from Synapse manual-control messages on Zenoh to the serial packet that the
`ppm_bridge` Arduino encoder reads. `src/` is a library that Verus verifies; `app/` is the
program around it: command line, Zenoh session, serial link.

```sh
synapse-ppm-bridge --zenoh-connect udp/127.0.0.1:7447 --serial-device /dev/ttyACM0 --baud-rate 57600
```

The default topic is `synapse/manual_control`. A payload is a bare
`synapse.topic.ManualControlData` struct of the `synapse_fbs` crate, 40 bytes; payloads of any
other size are dropped. `PPM_CHANNEL_MAP` (or `--channel-map`) reorders the channels.

Base channel order:

```text
0 throttle
1 aileron / roll
2 elevator / pitch
3 rudder / yaw
4 mode
```

The serial packet is 14 bytes:

```text
0xffff header, five little-endian u16 channels, little-endian u16 checksum
```

The checksum is the wrapping sum of the five transmitted channel values.

## Modules

- `pwm`: stick positions in thousandths to pulse widths in microseconds
- `channels`: the five channels and the map that reorders them
- `manual_control`: what a message asks for; the accessors of `synapse_fbs` are trusted here
- `packet`: the serial packet and its checksum
- `bridge`: what is done with each payload, what a whole run writes, and what is reported
- `session`: the session's configuration; two calls into `zenoh` are trusted here
- `text`: decimal numbers as text
