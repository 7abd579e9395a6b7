//! A blinking output driven by a periodic timer interrupt.
//!
//! The interrupt handler flips one shared level on every timer tick; the
//! foreground loop reads that level over and over and writes the output pin
//! to match. This crate holds the logic of both sides and the timer set-up.
//!
//! The laws about ticks (the level follows their parity, no toggle is lost)
//! are proved of `controller::ToggleController`, a model of the controller
//! seen from one context at a time. They are not proved of the atomic
//! `controller::DesiredLevel` that the firmware shares between its contexts:
//! nothing is stated of the value inside a core atomic, so its contracts say
//! only what one handler run or one loop iteration does with what it read.
pub mod level;
pub mod pin;
pub mod timer;
pub mod controller;
