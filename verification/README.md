# AD936X driver

A verified driver core for the Analog Devices AD936X RF transceivers and the AXI AD9361 core in the
FPGA next to them, which their digital interface is tuned with.

```rust,ignore
let configured = Uninitialized::new(ReferenceClock::new(HertzU32::MHz(40))?, 0)
    .configure(Ad9361Settings::default())?;
let (link, chip) = configured.init(Link::new(Vec::new()), &tables);
```

- `src/` is the library. It decides what to send to the chip and what to make of the answers, and
  is verified with Verus. Every operation has a model, a spec method of `EngineView`, and does what
  the model says. The laws about the operations are the proof functions named `law_`.
- `app/` attaches the library to a bus: an `embedded-hal` SPI device and reset pin, the
  `axi-ad9361` core, the timer of `embassy-time`.
- `tests/` runs the library against a fake register file and a fake AXI core.

The library does no I/O. An operation is a conversation: it leaves its requests in a `Link`, the
application performs them and runs the operation again with the answers, until it is complete. A
`Link` hands out an answer only for the request it was given for, so a completed conversation is
exactly what was performed.

- `link` and `replay` show that running an operation again is sound: with the answers to the requests
  it made, it makes the same requests again.
- `regfile` and `on_chip` say what the operations leave in the registers of a chip that keeps what is
  written to it, and `sample_rate` what setting the sample rate leaves in the cached rates.
- `frame` says which operations leave the FIRs and the cached rates alone.

The vendor's RX gain tables and synthesizer tables are data of the board support. They are handed in
as `ChipTables`, which checks that they fit the chip.

The default settings are 2R2T, FDD, LVDS, 30.72 MSPS, 2.4 GHz.
