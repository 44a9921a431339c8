# rkiauh

A Klipper installation and update helper for an Armbian printer host, written in
Verus. The library (`src/`) holds the helper's logic with proved contracts; the
program around it (`app/`) does the terminal, file, git, process and D-Bus work.

- `text`: line, word and trim handling as `str::lines`, `split_whitespace` and `trim` do it.
- `overlays`: adding device-tree overlays to the `overlays=` line of `armbianEnv.txt`.
- `config`: the `key = value` settings file.
- `files`: file operations the configurators plan, and a file-tree model of their effect.
- `sys`: the udev rule and overlay configurator.
- `commands`: the reversible udev rule installation.
- `tasks`, `installer`: clone, pull, compile and service-installation tasks as state
  machines that the program drives.
- `systemd`, `dashboard`, `cli`: the decisions behind the service controller, the
  dashboard and the command line.

`app/main.rs` runs the dashboard, or `install <component>` / `update <component>`.
