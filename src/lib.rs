//! An in-process actor runtime core: typed message packets with reply slots,
//! a lifecycle state machine driven by control commands, and the routing
//! decisions that a mailbox makes for each envelope.
pub mod address;
pub mod channels;
pub mod control;
pub mod dispatch;
pub mod errors;
pub mod lifecycle;
pub mod message;
