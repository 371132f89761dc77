# sdr_tap

A live SDR tap: one rtl_tcp connection captures 2.4 MHz of spectrum, each
listener of the Zako3 hub asks for `MODE:FREQ_MHZ` (`FM:101.1`, `WFM:101.1`,
`AM:1.080`), and gets that station down-converted, demodulated and streamed
as Opus.

- `src/` is the verified library (Verus): source parsing and the retune
  decision, the rtl_tcp greeting and command codec, the I/Q staging ring,
  boxcar decimation bookkeeping, streaming WAV/PCM framing, Opus packet
  forwarding, control-request validation and module configuration.
- `app/` is the program around it: the clap CLI, the tokio tasks, the TCP
  link to rtl_tcp, ffmpeg and Ogg reading, the actix-web control API, the
  hub SDK, and the floating-point DSP (NCO mixing, FM/AM demodulation,
  de-emphasis, averaging), which the library cannot hold.
- `tests/` exercises the library on concrete values.
