# wincast

The verified core of WinCast, a suite that lets a Linux client operate a
program on a Windows host over the local network.

- `src/` is the library, checked by Verus: the host's desktop session state
  machine and the lock-protected handle that shares it, Windows session-change
  mapping, main-window selection, input
  mapping, media configuration and raw-frame validation with a deterministic
  fake H.264 codec, the OpenH264 decoder's handling of what the decoder
  returns, capture and service boundaries, the host session's
  decisions (how a session ends, what is sent to the client), the client's
  retry policy and stream steps, stream framing and frame checks, and
  configuration paths.
- `app/` is the command-line program around it: argument parsing, files,
  sockets, clocks, threads and floating-point pointer scaling.
  It speaks the WinCast control protocol through the `wincast_protocol`
  crate.
- `tests/` exercises the library on concrete values.
