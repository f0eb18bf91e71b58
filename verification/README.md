# paper_name_plate

A name plate on the M5Stack PaperMono (ESP32-S3R8, SSD1677 480x800 4-gray
e-paper, ST25R3916 NFC). Tap it with a phone to receive the link; write to it
with any NFC tag writer, or over BLE, to change what it shows.

The library under `src/` is verified with Verus. `app/` is the firmware around
it: pins, radio, flash, fonts, `main`.

## How the contracts read

A driver talks to its hardware through a port: a trait that the board
implements and of which nothing is assumed. Each call, with what came back, is
written into a ghost trace. The contract of a driver function says that
replaying the function's *model* on the trace ends in the driver's state, with
the function's result: the calls, their order, the bytes, and what is returned
for every answer the hardware may give. See `src/trace.rs`.

Everything that does not touch hardware (tag memory and commands, NDEF records,
the transfer protocol, packet reassembly, the BLE session, stored records,
layouts, the application's decisions) is stated over plain models.

What holds beyond single functions stands in public proof functions, most of
them in the `laws` modules.

## Layout

```
src/trace.rs, bus.rs        traces, I2C and pauses
src/bytes.rs, text.rs       words, strings
src/i2c_reg.rs              register access
src/pm1.rs, ioe1.rs         PMIC, I/O expander
src/ft6336.rs               touch controller
src/st25r3916.rs            NFC reader; model, laws, control register
src/isodep.rs, ndef.rs      Type 4 tags, NDEF records
src/t2t_emu.rs              emulated Type 2 tag; model, laws
src/ssd1677.rs              e-paper controller, framebuffer; model, laws
src/board.rs                pin map, power and reset lines, bring-up order; display
src/config_store.rs         records in flash
src/app.rs                  the application: plate content, screens, BLE, NFC
app/                        firmware: ports, rendering, main loop
tests/                      scenarios with simulated hardware
```

The display's waveform tables are data of the board: `app/board.rs` reads them
from flash.
