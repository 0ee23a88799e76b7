//! A userspace driver core for the DualShock 4 v2: report parsing, remapping,
//! touchpad and keyboard/mouse output, profiles, the control-socket protocol
//! and the decisions of the daemon and the profile editor.
//!
//! Nothing here performs I/O. Every function takes and returns plain values,
//! so a device loop or a window can call it and act on what it says.

pub mod choices;
pub mod cli;
pub mod combo;
pub mod device_laws;
pub mod discovery;
pub mod ds4_bt;
pub mod ds4_input;
pub mod editor;
pub mod feedback;
pub mod gamepad_remap;
pub mod gamepad_targets;
pub mod gyro_stick;
pub mod hide_controller;
pub mod input_laws;
pub mod ipc;
pub mod ipc_laws;
pub mod kbm;
pub mod kbm_laws;
pub mod kbm_targets;
pub mod key_names;
pub mod order;
pub mod output;
pub mod profile;
pub mod remap_laws;
pub mod session;
pub mod sets;
pub mod text;
pub mod touchpad;
pub mod tray;
pub mod uinput;
pub mod uinput_absmouse;
pub mod uinput_mouse;
pub mod uinput_ds4;
pub mod uinput_x360;
