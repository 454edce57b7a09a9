//! Single-slot packet queue for a link-layer radio stack.
//!
//! The queue carries fixed-format data-channel PDUs (a two-byte header
//! followed by a bounded payload) from a producer context to a consumer
//! context. The producer enqueues through a payload-construction callback,
//! the consumer inspects the oldest PDU through a callback that decides
//! whether the slot is removed or left for a later retry.

pub mod bytes;
pub mod error;
pub mod header;
pub mod llid;
pub mod queue;
mod spsc;

pub use bytes::{ByteReader, ByteWriter};
pub use error::Error;
pub use header::Header;
pub use llid::Llid;
pub use queue::{Consume, SimpleConsumer, SimpleProducer, SimpleQueue};
pub use queue::{MIN_DATA_PAYLOAD_BUF, MIN_DATA_PDU_BUF};
