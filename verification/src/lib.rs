//! Push-notification fanout pipeline.
//!
//! Accepts a notification event addressed to a set of recipients, drops the
//! recipients that are already online, buffers the remaining work in a
//! bounded backlog, and prepares each buffered task as a durable broker
//! publish. The caller performs the network reads and writes (presence
//! lookup, broker publish) and hands their results back as plain values.

pub mod backlog;
pub mod notification;
pub mod pipeline;
pub mod wire;
pub mod worker;
