# ZenShot

A featherlight screen capture utility: select a region of the screen,
annotate it (pen, marker, line, arrow, rectangle, text, six colours), then
copy it to the clipboard, save it, or print it. On Windows a tray daemon
owns the global hotkeys; on Linux the desktop binds a key to `zenshot`.

## Layout

- `src/` is the `zenshot` library, written in Verus. Every function states
  its behaviour in `requires`/`ensures` and is proved:
  - `overlay`: the overlay's pointer state machine, keyboard shortcuts,
    tool buttons, colour palette and toolbar metrics;
  - `mask`, `raster`, `burn`: thick Bresenham lines into coverage masks,
    cropping, source-over blending, and burning stroke annotations into the
    captured pixels;
  - `hotkey`, `options`: shortcut labels, key recording, Win32 modifiers;
  - `config`, `export`, `codec`: settings and their defaults, save paths,
    collision-free file names, PNG/JPEG encoding;
  - `cli`, `ipc`, `instance`, `notify`, `tray`, `autostart`, `clipboard`,
    `capture`: command-line modes, the warm-instance protocol, lock names,
    notification texts, the tray daemon's message dispatch, login items,
    the clipboard hand-off and the screen-capture glue;
  - `text`: string helpers with specifications (trimming, UTF-16, decimals).
- `tests/` exercises the library on concrete values.
- `app/` is the program around the library: the egui windows, the GDI and
  XDG-portal capture backends, files, the clipboard, sockets and Win32.
  Screen geometry there is floating point, which the library does not hold;
  the library decides what each event means and does the pixel work.
