# netmic

A network microphone: a sender captures audio and streams it over UDP as
PCM16 frames; a receiver plays it into a virtual PulseAudio microphone; a
desktop front end drives either side.

The library in `src/` is written in Verus. Each function states its
behaviour in `requires` / `ensures` and Verus proves it.

- `datagram` frames UDP datagrams (a kind byte, then the payload) and audio
  payloads (`[u32 header length, LE][header JSON][PCM16 bytes]`), with the
  round trips proved.
- `protocol`, `config`, `control` hold the message types, the defaults, the
  safe ranges that requested parameters are held to (with a record of each
  fallback), and the control message names.
- `audio` holds PCM16 frames, their little-endian bytes, frame sizing, and
  the bounded sample buffer between capture and send.
- `client` is the sender's bookkeeping: counters, connection state, retry
  limit, stream schedule, handshake checks.
- `server` is the receiver: the single-client lock with its reconnect
  window, the receive counters, and the answers to control requests.
- `pactl` reads what `pactl` prints and the virtual microphone's state file,
  and decides each step of creating and removing the virtual microphone.
- `ui` is the front end's state and how each action changes it.
- `text` holds the string routines the rest builds on.

`tests/` runs the library on concrete values. `app/` is the program around
it: sockets, JSON encoding with serde, capture with cpal and rubato, the
PulseAudio sinks, `pactl` calls, and the float computations (test tone,
levels in RMS, sample conversion).
