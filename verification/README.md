# rs-1722

IEEE 1722 (AVTP) audio streaming over Ethernet on Linux, timed by IEEE 1588
(PTP) hardware clocks, with its logic verified by Verus.

- `src/` is the verified library: AVTP headers and data units, AAF/PCM
  payloads with the talker and listener, AVTP timestamps and PTP time
  arithmetic, RIFF/WAVE reading and writing, MAC address text, `pmc` output
  parsing, the `ptp4l` monitor's decisions, and the request records of the
  Linux PTP clock interface. Each public function states its result in its
  contract; the round trips (bytes written and read back, talker to listener,
  WAV files, MAC text) are proved as lemmas.
- `app/` is the unverified program around it: the `ptp4l` monitor, `ptp-tool`
  and `avtp-integration-test` (chosen by the name the program runs under),
  with the ioctls, raw sockets, processes, files and logging.
- `tests/` runs the library on concrete values.

The monitor needs [linuxptp](https://github.com/richardcochran/linuxptp)
(`ptp4l`, `pmc`). Logging uses `tracing`; the default filter is
`info,rs_1722=debug` and can be overridden with `RUST_LOG` (targets
`rs_1722::ptp::snapshot_poll` for `pmc` polling and `rs_1722::ptp::ptp4l` for
the forwarded `ptp4l` output).
