//! Register-level control logic for the Rockchip integrated Ethernet PHY.
//!
//! The crate holds the decisions of the driver and none of its bus traffic.
//! Every procedure is a resumable computation: it names the next register
//! access or framework call as a [`step::Step`], and is resumed with the
//! outcome of that operation. The host that owns the device performs the
//! operations, one at a time, until the procedure ends.
//!
//! - [`regs`]: register addresses and bit fields.
//! - [`bus`]: the plain values that pass between the logic and its host.
//! - [`step`]: steps, continuations and their mathematical values.
//! - [`trace`]: what a procedure asks for in the course of a run, and the
//!   laws that hold of every sequence of writes.
//! - [`device`]: what the procedures leave in the registers of a device
//!   that works.
//! - [`test_mode`], [`analog`], [`config`], [`polarity`], [`link`],
//!   [`power`], [`driver`]: the procedures themselves, each with its laws.

pub mod analog;
pub mod bus;
pub mod config;
pub mod device;
pub mod driver;
pub mod link;
pub mod polarity;
pub mod power;
pub mod regs;
pub mod step;
pub mod test_mode;
pub mod trace;
