//! Transmission scheduling and packet assembly for a QUIC transport:
//! a cross-thread wakeup queue, per-connection timer aggregation,
//! frame-exchange interests and the packet payload encoders.

pub mod connection_timers;
pub mod frame;
pub mod interests;
pub mod interop;
pub mod time;
pub mod transmission;
pub mod wakeup_queue;
