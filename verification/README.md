# denwa

A peer-to-peer voice chat for the command line, with its rules verified by
Verus.

- `src/` is the library. `command` reads what is typed at the prompt,
  `session` decides about packets, messages and the silence of the peer, `peer`
  orders addresses, `config` holds the audio settings, `audio` lays samples out
  in bytes, `traffic_meter` counts bytes, `invitation` and `start` cover keys,
  tokens and subcommands, `message` and `text` serve the rest.
- `app/` is the program: sockets, threads, PulseAudio, the Opus codec, the
  encrypted channel and the command line.
- `tests/` runs the library on concrete values.

Functions named `law_...` state what holds of the library as a whole.
