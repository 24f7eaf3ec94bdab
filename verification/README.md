# ublox-cellular

A driver library for u-blox cellular modules that speak the AT command set,
written in Verus: the logic of the driver is verified against its contracts.

## Layout

- `src/` — the verified library
  - `command/` — the AT commands and their answers: the command lines
    (`at.rs`), the answers that are read (`parse` on each answer type), the
    unsolicited result codes (`Urc::parse`), the error result codes
    (`+CME ERROR`, `+CMS ERROR`), and the numbers and names that stand for
    the values of each command.
  - `text.rs`, `hex.rs` — the text of answers: trimming, fields, lines,
    decimal numbers, strings read as UTF-8; hexadecimal socket data.
  - `time.rs`, `module_timing.rs` — instants and durations on a wrapping
    tick counter; how long the control pins are held low.
  - `registration.rs`, `network.rs` — following and helping the network
    registration; the AT transmitter's bookkeeping of timeouts and URCs.
  - `socket/` — IP addresses, their canonical text and the reading of
    IPv4 and IPv6 text, UDP and TCP sockets, their receive ring buffers
    and the socket set.
  - `services/data/` — the data service: the PDP context, name resolution,
    SSL/TLS profiles, connecting TCP sockets, moving socket data in and
    out of the module.
  - `client.rs`, `power.rs`, `config.rs` — the decisions of the device: how
    to set the module up, power it, and run its loop.
- `app/` — ordinary Rust around the library: the `embedded-hal` pins and
  delays, the atat client traits, serde for the library's types, the
  `embedded-nal` name resolution and UDP and TCP client stacks, the
  `Clock` trait over `fugit` instants, and the loops that send what the library
  decides (power, factory reset, setup, registration, data context,
  SSL/TLS).
- `tests/` — tests of the library.
