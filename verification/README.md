# onerom_honda

Editor for Honda OBD1 ECU ROMs served by a One ROM board, with the logic
verified by Verus.

- `src/` — the verified library:
  - `checksum`, `ostrich`: the Ostrich serial protocol (probe, `R`/`ZR`
    reads, `W`/`ZW` writes, checksums) and the step-by-step block reader and
    writer, with laws on what a read gives back of a write;
  - `settings`, `patch`: the settings stored in the ROM, the byte patches
    and setting presets, and their read-back;
  - `tables`, `tracking`: the 20 x 10 fuel and ignition maps, zone edits,
    the cells a live sample falls into and its batching;
  - `datalog`: decoding of the 52-byte datalog packet;
  - `hexdump`, `text`, `session`, `ports`, `modes`, `plugin`: the hex dump,
    text handling, session decisions, serial port selection, display modes
    and the plugin listing options.
- `tests/` — tests of the library on concrete values.
- `app/` — the desktop program (egui), the serial and USB I/O, and the
  floating-point conversions of sensor values.
