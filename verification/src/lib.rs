//! Dispatch and callback verification for confidential computations run by
//! an external executor cluster, with the byte layouts of the encrypted
//! records the computations read and write.

pub mod apply;
pub mod arguments;
pub mod callback;
pub mod callbacks;
pub mod circuits;
pub mod codec;
pub mod dispatch;
pub mod executor;
pub mod instructions;
pub mod laws;
pub mod program;
pub mod protocol;
pub mod state;
pub mod status;
pub mod store;
