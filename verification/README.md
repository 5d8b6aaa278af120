# midilab

Editing and serialization of MIDI controller system-exclusive messages. The
library's functions are proved against their contracts by Verus; two calls
into std that vstd does not specify (`String::push` and
`char::is_alphanumeric`) stand behind trusted wrappers whose contracts are
taken as given.

- `src/` — the verified library: sysex framing and 7-bit/14-bit packing, MIDI
  notes, music theory and note generation, the Akai MPD226 (presets, global
  parameters, repositories, colour patterns), the Korg R3 (programs, globals,
  formant motions, live parameter changes, and the laws that decoding an
  encoded program or global record and encoding it again gives the same
  bytes), the Arturia MiniLab mkII (command
  messages, replies, the parameter store, the raw preset and global
  parameters assembled from it, and the preset's controls in typed form), the Nektar Impact LX+ (port names, message
  framing with TLV blocks and checksum, reading messages back, and full
  memory dumps: their 182 messages in dump order and reading them back), and simulated
  MPD226 and MiniLab mkII devices.
- `tests/` — tests run against the compiled library.
- `app/` — the user configuration kept on disk (JSON via serde).
