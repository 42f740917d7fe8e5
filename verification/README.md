# ttmpv-engine

The core of a headless media engine built on libmpv, written in Verus.

- `src/` is the verified library: audio configurations and the layout of
  waveform bins (`audio`), decimal text (`text`), the error type and the
  mapping of mpv status codes (`error`), the C values of mpv's formats and
  event kinds (`ffi`), the decoding of raw events (`events`), and the
  protocol that turns a fresh mpv context into a ready handle, with seek
  flags and API-version splitting (`handle`).
- `app/` binds libmpv: it runs the verified setup protocol against the real
  library, reads raw events from C memory for the verified decoder, owns the
  context (destroying it on drop), and does the floating-point work (RMS
  peaks, overviews, durations).
- `tests/` runs the library on concrete values, with mpv's answers simulated.
