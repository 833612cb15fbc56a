//! Core of a conversational relay bot: per-chat session state (conversation
//! history and active persona), a dialogue state machine for interactive role
//! creation, a command router that maps inbound events to state transitions
//! and outbound actions, and the callback-payload encoding used by transient
//! choice menus.
//!
//! Everything here is pure in-memory logic with verified contracts.  The
//! unverified edges (the messaging transport, the completion service, and the
//! on-disk role store) live outside this crate and exchange plain values with
//! it.

pub mod callback;
pub mod catalog;
pub mod chats;
pub mod escape;
pub mod options;
pub mod requests;
pub mod router;
pub mod session;
pub mod store;
pub mod text;
