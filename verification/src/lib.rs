//! A bridge from a value-producing task on any thread to a reactive cell that
//! lives on one thread.
//!
//! A feeder task offers each value of its source to an unbounded channel and asks
//! for a wake-up; the drain loop, an effect of the reactive runtime, empties the
//! channel into the cell each time it is woken.
//!
//! The library makes the parts and decides every step; its caller waits for the
//! source, requests the wake-ups, and makes the effect that subscribes to the
//! trigger and writes to the cell.
//!
//! - [`bridge`] makes the two halves of a bridge to a cell.
//! - [`feeder`] is the sending half: what a task does with each item of its source.
//! - [`drain`] is the receiving half: what the effect does on a wake-up.
//! - [`channel`] and [`reactive`] hold the calls into `crossbeam_channel` and
//!   `floem_reactive`, with what is taken on trust of them.
//! - [`protocol`] describes one bridge as a transition system, [`laws`] proves what
//!   holds of it in every order of events, and [`replay`] carries such an order out
//!   on one thread.

pub mod bridge;
pub mod channel;
pub mod drain;
pub mod feeder;
pub mod laws;
pub mod protocol;
pub mod reactive;
pub mod replay;
