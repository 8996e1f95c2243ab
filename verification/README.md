# honeycomb_bravo

Verified core of an X-Plane 12 plugin for the Honeycomb Bravo throttle
quadrant, written in Verus.

`src/` is the library, every function of it verified:

- `protocol` — device models and the 64-byte LED feature report.
- `hid` — the LED panel mirror (`Led`, the 28 panel LEDs, `BravoDevice`) and
  when its state must be written; `hid::connection` — failure backoff and
  edge-only lifecycle reporting of the HID link.
- `datarefs`, `leds` — from simulator values to lit LEDs, and change detection
  for the diagnostic log.
- `commands` — rotary encoder modes and detents, thrust reversers, trim wheel
  direction, and the table of custom commands.
- `config` — the dataref mappings and their defaults.

`app/` is the plugin around it: X-Plane SDK calls, the TOML configuration file,
the macOS IOKit transport, logging, and the floating-point dataref arithmetic.
