# esp_p4_psram

Bring-up of the octal/hex PSRAM of the ESP32-P4, verified with Verus.

`src/` decides: which registers to update and how, which transactions to run on
the SPI command engine, what the answers mean, what to program into the chip and
how to map it. It never touches the device. Settings are lists of accesses;
transactions, conversations with the chip and the bring-up as a whole are state
machines that take the last answer and give the next step.

| module        | content                                                        |
|---------------|----------------------------------------------------------------|
| `mode_regs`   | mode registers of the chip, capacities, default configuration  |
| `latency`     | latency presets                                                |
| `access`      | registers, fields and accesses as values, and their effect     |
| `regs`        | settings of the controllers                                    |
| `transaction` | one transaction on the command engine                          |
| `session`     | reading, programming and resetting the chip                    |
| `program`     | bus preparation, cache-side controller, MMU window, caches     |
| `bringup`     | detection and complete bring-up                                |
| `trace`       | whole detections and bring-ups, and what holds of them         |
| `error`       | errors and their texts                                         |
| `text`        | numbers as text                                                |

`app/` performs the accesses on the device, through the `esp32p4` register
access crate and the boot ROM.

The boot loader has to have set up the regulators, the MPLL, the chip-wide clocks
and the pins before. Smoke tests of the memory have to span more than the L1
cache: a few words in one cache line seem to work even without a chip.
