//! Keeps the taints of cluster nodes in line with their labels.
//!
//! A rule pairs a label selector with a taint: a node that the selector
//! matches must carry the taint. [`controller`] decides, for one node as a
//! watch event shows it, which updates that takes. [`watch`] supervises the
//! watch itself as a state machine: it is told what happened outside (a node
//! came, the stream broke off, the delay is over) and answers with what is to
//! be done next. Reading the stream, sending the updates and waiting are left
//! to the caller.

pub mod config;
pub mod controller;
pub mod labels;
pub mod node;
pub mod timestamp;
pub mod watch;
