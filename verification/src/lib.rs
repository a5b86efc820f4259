//! A small asynchronous runtime: readiness tracking for non-blocking sockets,
//! task scheduling bookkeeping and the decisions taken by its event loops.

pub mod net;
pub mod task;
