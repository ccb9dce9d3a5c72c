//! A monophonic square-wave synthesiser driven by note messages.
//!
//! The crate holds the decisions of the synthesiser on integers: how a raw
//! control message is classified and routed to a command, how the oscillator
//! reacts to commands and what it plays for a block, what the control loop
//! does on each event, and how the event source schedules its device reads.
//! Sample arithmetic, devices and threads belong to the program around it.

pub mod message;
pub mod command;
pub mod router;
pub mod oscillator;
pub mod control;
pub mod source;
