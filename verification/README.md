# Ghostify DPI

A tray application that starts, watches and stops the GoodbyeDPI process.

- `src/` is the verified library: the launch stages and the status register
  that announces every change of stage, the decisions that start and stop the
  process and read its output, the log line format, the tray menu and
  tooltip, icon file names, and the system commands the application runs.
- `tests/` runs the library on concrete values.
- `app/` is the application around it: the window and tray (tauri), the
  pseudo-terminal that runs the process, threads and channels, the log file,
  and the build step that renders the icons.
