//! Linux socketCAN frames and a CANopen-style protocol on top of them.
//!
//! The library holds the parts of a CAN stack that compute: the bit-exact
//! frame codec and its 16-byte wire record, the periodic-transmission
//! envelope, the error-frame decoder, the CANopen classifier and serializer,
//! and the bookkeeping of a bus hub that fans one physical channel out to
//! many subscribers. Opening sockets and moving bytes is left to the caller.
pub mod frame;
pub mod wire;
pub mod err;
pub mod canopen;
pub mod retry;
pub mod hub;

pub use crate::canopen::{CANOpenNodeCommand, CANOpenNodeMessage};
pub use crate::err::{CANError, CANErrorDecodingFailure};
pub use crate::frame::{CANFilter, CANFrame, FrameError};
