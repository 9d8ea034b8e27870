//! The protocol core of an OCPP-J 1.6 central system: the frame codec, the
//! action registry, the payload validator, the call correlation table, the
//! station session and the connection registry. The library reads and
//! writes text frames and decides; it opens no socket, reads no clock and
//! keeps no state but what its callers hold.

pub mod action;
pub mod clock;
pub mod correlation;
pub mod dispatch;
pub mod endpoint;
pub mod frame;
pub mod json;
pub mod message;
pub mod payload;
pub mod registry;
pub mod session;
pub mod text;
