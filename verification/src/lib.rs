pub mod beacon_chain;
pub mod behaviour;
pub mod discovery;
pub mod enr;
pub mod identity;
pub mod network;
pub mod packet;
pub mod peer_db;
pub mod peer_manager;
pub mod rpc;
pub mod status;
pub mod sync;
pub mod types;

pub use types::{Epoch, PeerId, Root, Slot};
