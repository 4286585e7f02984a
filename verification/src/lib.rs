//! Deciding whether, and with what answer, the tool calls of a model are carried out.
//!
//! The library holds the decisions. Each wait (for the user's answer, for a running tool, for
//! the frontend) is cut into a step before and a step after, and the caller does the waiting:
//! [`approval`] walks through the requests that need the user's approval, [`confirmation`] says
//! what the wait for an answer has come to, [`frontend`] handles a tool that the frontend runs,
//! and [`tool_stream`] gives the items of a running tool. [`approval_laws`] states what holds of
//! a list of requests as a whole.

pub mod approval;
pub mod approval_laws;
pub mod confirmation;
pub mod context;
pub mod frontend;
pub mod interop;
pub mod message;
pub mod permission;
pub mod request;
pub mod responses;
pub mod tool_stream;
