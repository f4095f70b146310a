//! Peer messaging engine of a serverless LAN chat: presence table,
//! connection bookkeeping, delivery with one retry, frame handling,
//! persistence statements and the command dispatcher's decisions.

pub mod app_event;
pub mod backend;
pub mod chat;
pub mod db;
pub mod delivery;
pub mod discovery;
pub mod ipc;
pub mod network;
pub mod protocol;
pub mod sqlite;
pub mod stamp;
pub mod state;
pub mod store_model;
pub mod table;
