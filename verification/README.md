# hypaper

The verified core of the Hypaper wallpaper engine for Hyprland: a daemon
(`hypaperd`) that shows animated `.hyscene` wallpapers on Wayland layer
surfaces, and a client (`hypaperctl`) that controls it over a Unix socket.

- `src/` is a Verus library.  It holds every decision of the engine, each
  with a contract: parsing Hyprland event lines, reading and validating scene
  archives and manifests, the daemon's wallpaper state machine, command-line
  planning and output, Wayland output bookkeeping, and the integer side of
  rendering (parallax targets, particle emission, surface formats).  Calls
  into the `zip` and `image` crates stand behind small trusted wrappers whose
  contracts name what the call returns.
- `tests/` exercises the library on concrete values.
- `app/` is one executable that runs as `hypaperd` or `hypaperctl` depending
  on the name it is started under.  It does the I/O (sockets, files, the
  compositor, the GPU, the Rhai script engine, serde) and asks the library
  what to do.
