//! A PLC runtime core for EtherCAT-style field buses.
//!
//! The library compiles declarative device field schemas into process-image
//! descriptors (identities, PDO assignments, register offset tables, SDO
//! values, watchdog and distributed-clock settings), checks the offsets and
//! sizes that a bus master reports during bring-up against the compiled
//! layout, and answers byte-range requests from remote clients against an
//! engine-owned external image without blocking the cyclic control loop.

pub mod types;
pub mod compile;
pub mod bridge;
pub mod channel;
pub mod modbus;
pub mod simple;
pub mod plc;
pub mod image;
pub mod beckhoff;
