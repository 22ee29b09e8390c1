//! A five-button appliance with a small display that wakes sleeping
//! machines on the local network.
//!
//! This library holds what the appliance decides: how the bouncing edges of
//! its buttons become events (`keyevent`, `signal`), how the events move
//! through the menu and edit its typed fields (`ui`, `alphabet`, `shape`,
//! `session`), what the display shows (`displayctl`), how the settings are
//! stored and loaded (`config`, `number`, `text`), what goes into the packet
//! that wakes a machine (`wakepacket`), and what the appliance does between
//! sessions (`control`). Pins, display, network and storage are left to the
//! program around it.

pub mod alphabet;
pub mod config;
pub mod control;
pub mod displayctl;
pub mod keyevent;
pub mod number;
pub mod session;
pub mod shape;
pub mod signal;
pub mod text;
pub mod ui;
pub mod wakepacket;
