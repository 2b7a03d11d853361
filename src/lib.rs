//! Driver logic for a PN532 contactless-card reader on an SPI bus: frame codec,
//! command exchange, tag memory reading, identifier decoding and the scan lifecycle.
//! The bus and control-line I/O itself is performed by the caller, which runs the
//! state machines of this crate and hands back what the hardware answered.
use vstd::prelude::*;

pub mod bits;
pub mod frame;
pub mod transport;
pub mod command;
pub mod reader;
pub mod tag;
pub mod catalog;
pub mod scan;

verus! {

} // verus!
