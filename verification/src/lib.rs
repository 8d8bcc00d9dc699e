//! Section-local consensus and duty routing for a node in a peer-to-peer
//! storage-and-payments network.
//!
//! A network is organised into self-governing sections of peers (Elders and
//! Adults). Clients submit data operations and money transfers; a quorum of
//! Elders must agree before any mutation is durable. This crate holds the
//! section-local core: the duty classifier that routes an incoming message
//! envelope to the right role-specific handler, the asset-transfer replica
//! protocol that validates, accumulates threshold signature shares for, and
//! finalizes money transfers, the data-type storage handlers, and the churn
//! and split coordination that rekeys replicas and repartitions ledgers.
//!
//! Network identities, keys and signature shares are carried as plain values:
//! what the protocol reads of them (who signed, under which section-key index)
//! is held in fields, while transport, persistence and the cryptographic
//! primitives themselves live with the surrounding host.

pub mod adult_duties;
pub mod chunk_store;
pub mod key_section;
pub mod map_storage;
pub mod mock_routing;
pub mod mpid_manager;
pub mod mpid_messaging;
pub mod node_msgs;
pub mod section_funds;
pub mod table;
pub mod transfers;
pub mod types;
