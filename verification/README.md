# ps_battery

Battery monitoring for PlayStation controllers (DualSense, DualSense Edge,
DualShock 4) on Windows, as a verified library and a thin tray application.

- `src/` — the library, verified with Verus:
  - `parse_battery_and_charging`: decoding the battery byte of an input report;
  - `controller_info`, `poll_controllers`: which HID devices are read, how a
    poll turns reports into statuses (carrying a failed read over once), the
    report mode switch for truncated Bluetooth reports, the poll wake-up state;
  - `controller_store`: the latest statuses with a generation counter, and
    their one-line description;
  - `alerts`: which controller an alert is about, its sound and icon, and
    when alerts may go out;
  - `tray`, `autostart`, `logger`, `text`: the tray menu contents and message
    handling, startup-on-login state, log lines and paths, UTF-16 text.
- `app/` — the Windows program: HID access through `hidapi`, the tray icon,
  menu, sounds, registry and startup task through `windows`.
- `tests/` — tests of the library.
