# openvpn_gui

A GNOME client for the `openvpn` command line program: it imports `.ovpn`
profiles, connects and disconnects them through `pkexec openvpn`, shows
traffic statistics read from the management interface, and sits in the
system tray.

- `src/` is the verified library (Verus): text handling, paths, the
  management port of a profile, the connect and disconnect sessions, the
  `load-stats` reply parser, the profile list, credential decisions, the
  switch logic of profile rows and of the status panel, the speed graph's
  sample window, and the tray menu.
- `app/` is the GTK/libadwaita program around it: widgets, dialogs, file and
  network I/O, JSON storage, the `ksni` tray icon, and the floating point
  speed formatting and graph drawing.
- `tests/` exercises the library on concrete values.
