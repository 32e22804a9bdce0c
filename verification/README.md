# resonance_gui

The panel logic of a serial-port sweep controller with an egui window,
verified with Verus.

- `src/` — the verified library:
  - `text.rs`: searching and removing text, decimal numerals, joining lines;
  - `settings.rs`: the stored settings and the choice of colour theme;
  - `console.rs`: the debug console lines and the packets of the traffic view;
  - `devices.rs`: the archive of serial devices and the list of offered ports;
  - `selection.rs`: picking a device, the warning before data is cleared,
    connecting, clearing the history, resetting labels, and the laws of these
    steps;
  - `panel.rs`: the state of the main window and what the panels compute
    from it.
- `app/` — the egui window around it: drawing, file dialogs, locks, channels,
  stored preferences and floating-point layout.
- `tests/` — tests of the library on concrete values.
