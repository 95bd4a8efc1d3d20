# nightlightd

The integer and text logic of a screen colour temperature daemon for X11
and its clients, proved with Verus, and a small command-line client around
it. The temperature maths itself — the sun's position, the transition
curve, the fade's blend and the screen tint — is floating point and is not
here; neither are the daemon's X11 loop and the three interfaces, whose
decisions the library holds but does not run.

`src/` is the verified library:

- `text`, `number`: string primitives (trim, ASCII case, search, split,
  lines, decimal numerals) and the number grammars of `u32::from_str` and
  `f64::from_str`, each specified as the standard library defines it.
- `theme`: the named themes shared by the interfaces, found by name.
- `paths`: where the configuration lives, and a path shown with `~`.
- `location`: the zone name from `TZ`, `/etc/localtime` or `/etc/timezone`,
  and a zone's ISO 6709 coordinate from a `zone.tab` table.
- `import`: a gammastep or redshift INI file translated into settings.
- `request`: the client's `--fade`, `--band` and `--brightness` values
  (the spellings of infinity and not-a-number are refused).
- `control`: the daemon's control state, what each D-Bus request does, and
  the status reply.
- `screen`: the screen loop's rules (poll timeout, wipe detection, fades).
- `bounds`: how the interfaces step and drag the day and night bounds, and
  the curve as a control.
- `staging`: the settings panel's Apply and Revert for curve edits, and
  its bookkeeping of the bounds.
- `keys`: the terminal dashboard's keyboard: which key does what in which
  mode.
- `launch`: the command lines of the dashboard, the panel and the tray.
- `tray`: the tray icon's menu, icon, clicks and hover text.
- `readout`: the words the interfaces print, the `--status` readout among
  them.

`tests/` runs the library; `app/` is the client binary: it parses the
command line, talks to the daemon over D-Bus and lists the X11 CRTCs.
