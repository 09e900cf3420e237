//! Verified core of a multi-gateway aggregator for the Helium LoRaWAN network.
//!
//! Many LoRaWAN gateways connect to one server. Each has a keypair of its own, found by its MAC
//! address and made when the gateway first appears. The server takes in the packets that gateways
//! receive, keeps track of the gateways, and hands the packets to a router task for each of them.
//!
//! The library holds what is decided and computed. Sockets, files, clocks, tasks and channels are
//! the caller's: it hands in what they gave and carries out what comes back.
pub mod api;
pub mod cli;
pub mod dispatcher;
pub mod frame;
pub mod gateway_entry;
pub mod gateway_info;
pub mod gateway_table;
pub mod health;
pub mod keypair;
pub mod keys_dir;
pub mod mac;
pub mod metrics;
pub mod packet;
pub mod router;
pub mod settings;
pub mod text;
