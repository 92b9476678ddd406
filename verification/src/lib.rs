//! The core of a background desktop utility that keeps an input window out
//! of sight until a hotkey or the tray icon calls for it, and hands a text
//! to the application that had the focus before, by way of the clipboard
//! and a paste chord.
//!
//! Nothing here touches the desktop. Every function takes what the desktop
//! reported as plain values and answers with what is to be done next; the
//! program around the library carries that out. What is claimed of a whole
//! run is stated over a model of the desktop and proved against it.
//!
//! - [`surface`]: the visibility controller.
//! - [`lifecycle`]: what a close request means, and how to quit.
//! - [`frontend`]: the commands behind the tray, its menu and the hotkey.
//! - [`clipboard`]: reading the clipboard on its own.
//! - [`injection`]: the injection pipeline as a state machine.
//! - [`desktop`] and [`delivery`]: the model of the desktop, and what an
//!   injection into it comes to.
//! - [`keys`], [`fault`], [`error`]: the paste chord, the faults of the
//!   backends, and the failures handed to the caller.

pub mod clipboard;
pub mod delivery;
pub mod desktop;
pub mod error;
pub mod fault;
pub mod frontend;
pub mod injection;
pub mod keys;
pub mod lifecycle;
pub mod surface;
