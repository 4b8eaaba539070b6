//! Clock abstractions: frequencies, the prepared/enabled state machine of a
//! reference-counted clock, and the calls that each state owes the C clock API.

pub mod clock;
pub mod error;
pub mod hertz;
mod sealed;
pub mod state;

pub use clock::{Change, Clk, ClkCall, Error};
pub use hertz::Hertz;
pub use state::{ClkState, Enabled, Prepared, Unprepared};
