# evdev

Nicer access to Linux `evdev` input devices, with the logic proved by Verus.

The library (`src/`) holds what decides: the event codes and their names, bit
sets of codes, input events and their typed variants, force feedback effects and
their kernel encoding, the state a device is in, and the synchronizing reader
that withholds blocks of events the kernel dropped and then injects
compensating events so that its user sees state transitions consistent with the
device. Each public function states its result in its contract; the laws of the
reader (which blocks are handed out, that compensation brings the state seen so
far back in line with the device's) and of the effect encoding are proof
functions.

`app/` is the code around it that Verus does not see: opening devices, the
ioctls that read capabilities and state, reading and writing events, uinput
virtual devices, and the tokio streams.

Layout of `src/`:

- `attribute_set.rs`: bit sets of codes, backed by `bitvec`.
- `compat.rs`: the kernel's structures as plain values.
- `constants.rs`, `scancodes.rs`, `names.rs`: the codes of each kind and their names.
- `event.rs`, `event_variants.rs`, `inputid.rs`: events, their variants, device ids.
- `text.rs`, `describe.rs`: numbers as text, and the descriptions of events, ids and devices.
- `ff.rs`: force feedback effects and their kernel form.
- `device_state.rs`: the cached state of a device.
- `raw_stream.rs`: a device without synchronization, and the decisions around ioctls.
- `sync_stream.rs`: the synchronizing reader.
- `uinput.rs`: what a virtual device decides.
