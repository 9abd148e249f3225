//! A synchronous bridge over a callback-driven graphics toolkit: blocking
//! "show this screen and wait for the decision" flows for a secure-element
//! device, together with the small layer of data mappings they rely on.
//!
//! The toolkit is driven by callbacks from an event loop that the
//! application does not control, and commands from the host can arrive while
//! a screen is shown. This crate holds the decisions of the bridge: what a
//! callback records, what one cycle of a wait returns, which screen a flow
//! asks for next and what its result is. The calls into the toolkit and the
//! loop that yields to it belong to the code around this crate.
//!
//! - [`codes`]: the numeric codes shared with the toolkit.
//! - [`operation`]: operation kinds, operation codes and status codes.
//! - [`glyph`]: icons and their conversion for the toolkit.
//! - [`tune`]: sound cues.
//! - [`decision`]: outcomes, callbacks and the decision state.
//! - [`sync`]: the bridge and the wait.
//! - [`flows`]: the home, review, choice and status flows.

pub mod codes;
pub mod operation;
pub mod glyph;
pub mod tune;
pub mod decision;
pub mod sync;
pub mod flows;
