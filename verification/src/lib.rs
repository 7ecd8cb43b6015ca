//! The logic of a Signal client, with contracts that are proved.
//!
//! The library does no input or output. What a client reads from the network or from its store
//! comes in as plain values, and what it has to do next goes out as plain values. Where an
//! operation alternates between the two, it is a state machine.
pub mod backup;
pub mod endian;
pub mod errors;
pub mod manager;
pub mod model;
pub mod proto;
pub mod proto_laws;
pub mod service_id;
pub mod sqlite;
pub mod sqlite_laws;
pub mod storage_record;
pub mod storage_record_laws;
pub mod store;
pub mod store_laws;
pub mod text;
pub mod time;
pub mod wire;
