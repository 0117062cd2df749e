//! Driver for a serial character display that takes its commands over a
//! synchronous bus, behind a select line.
//!
//! [`SerLCD`] owns a bus, a select line and a delay source, and turns each
//! operation on the display into calls to them. [`wire`] says which calls an
//! operation makes, [`record`] what it means for a run of calls to follow
//! such a script, and the contract of each operation says that its run does.
//! [`laws`] holds what follows for every run.

pub mod driver;
pub mod laws;
pub mod link;
pub mod record;
pub mod wire;

pub use driver::SerLCD;
pub use link::{ByteChannel, Error, SelectLine};
