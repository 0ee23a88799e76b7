# ds4l

A daemon that turns a DualShock 4 v2, over USB or Bluetooth, into a virtual
gamepad, an Xbox 360 pad, or a keyboard and mouse, with gyro aiming, touchpad
gestures, profiles and live profile switching.

`src/` is a Verus library. It holds everything that decides or computes
something: report parsing and checksums, calibration, remapping, keyboard and
mouse frames, touchpad gestures, lightbar effects, device descriptions, the
control protocol, controller discovery, the profile switch as a state machine,
and the texts and lists of the editor and the tray. Every function states in
its contract what it returns; the public proof functions named `law_..` state
what holds across functions.

`app/` is ordinary Rust around it: `main.rs` is the daemon (and, under their own
names, the diagnostic tools), `ds4l_gui.rs` the editor with its tray icon. It
reads and writes devices, files and sockets, and does the floating-point part of
motion and scaling.

`tests/` runs the library on concrete values.

What is taken on trust: the CRC32 of `crc32fast`, as a function of its input.

Thresholds and cursor speeds are fractions in the profile files. The library
works on whole numbers: raw stick steps, of which 127 are full deflection, raw
trigger values, and a table of cursor counts per stick byte. `app/stored.rs`
converts.
