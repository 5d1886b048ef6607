//! Command-to-protocol orchestration for a usb2snes-style bridge client.
//!
//! The library is the decision layer of the client: it resolves which device a
//! session should attach to, turns each user command into the ordered sequence
//! of protocol calls the bridge must see, renders every operator-facing line of
//! output, and maps collaborator failures into closed error types.  The
//! transport itself (websocket framing, the wire encoding) and all I/O stay
//! outside; a thin driver performs each requested effect and feeds the outcome
//! back into the state machines defined here.

pub mod errors;
pub mod entry;
pub mod text;
pub mod paths;
pub mod num;
pub mod establish;
pub mod orchestrate;
pub mod laws;
