//! Startup sequencing and supervision for a worker process: the ordered
//! startup state machine, the single-assignment request router, the one-shot
//! shutdown signal, the metrics push schedule and the layered storage read path.

pub mod lifecycle;
pub mod pusher;
pub mod router;
pub mod shutdown;
pub mod storage;
