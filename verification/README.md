# memory_monitor

A memory monitoring daemon that cleans memory when usage reaches a threshold
and reports through Growl/GNTP notifications. The decisions are a Verus
library with proved contracts; a thin program around it does the I/O.

- `src/` — the verified library:
  - `monitor.rs`: classification of a reading (OK / WARNING / CRITICAL),
    the status screen, and the monitoring loop as a step function from
    phase and report to next phase and work, with its laws.
  - `cleaner.rs` and `cleaner/`: which cleanup runs (external tool or native
    stages), and each platform's result from its stages' outcomes.
  - `config.rs`, `ini.rs`: default settings, where the configuration file is
    searched for and created, and how its entries become settings
    (through `configparser`).
  - `notification.rs`: Growl client setup and delivery reports.
  - `text.rs`, `display.rs`: decimal rendering and parsing, styled lines.
- `app/` — the program: reads memory counters (`sysinfo`), runs the cleanup
  stages, talks to Growl (`gntp`), reads and writes files, prints.
- `tests/` — tests of the library.

The memory threshold is held in hundredths of a percent, and usage as the
exact ratio of used to total bytes.
