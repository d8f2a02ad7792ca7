//! Asynchronous client-side state machines for a channel-oriented,
//! command/response key-value store.
//!
//! The crate models the two protocols of such a client as verified state
//! machines over plain values:
//!
//! - a cursor-driven scan stream that re-issues a paginated enumeration
//!   command until the server reports cursor 0, delivering the items of
//!   each page in order and handing the connection handle back exactly
//!   once, together with or after the last item;
//! - a subscription loop that filters pushed frames, hands each decoded
//!   message to a caller-supplied handler, and interprets the handler's
//!   control decision to keep receiving or to unsubscribe and finish.
//!
//! The machines own the connection handle as a linear resource: at any
//! moment it sits in exactly one slot (in flight, held between pages, or
//! already returned), and every transition says so in its contract.
//! Network transport itself stays outside: callers issue the commands the
//! machines build and feed the decoded responses back in.

pub mod commands;
pub mod pubsub;
pub mod stream;
