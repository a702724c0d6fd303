# BrainSales Companion

The decision core of a desktop companion that listens to calls, streams speech to
a transcription service and hands the transcripts to a web app. The core is a
library whose behaviour is stated in contracts and proved with Verus.

- `src/` is the library.
  - `vad`, `stream`, `audio`: from samples to a voice-gated stream of PCM chunks.
  - `transcript`, `deepgram`: the speech service.
  - `server`: the web app's connection, its handshake and its commands.
  - `auth`, `link`: who uses the companion.
  - `app_state`, `window`: what the companion remembers and shows.
  - `json`, `text`: documents and text. Contracts of calls into other crates that
    are believed rather than proved stand here and in `link`.
  - `vad_laws`, `stream_laws`, `server_laws`: what holds over many events.
- `tests/` runs the library.
- `app/` is the program around it: devices, sockets, the window, and the
  floating-point arithmetic on samples.
