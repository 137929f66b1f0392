//! Health monitoring for a blockchain indexer ("subgraph").
//!
//! Each poll cycle reads the indexer's status and the chain head, decides a
//! health verdict from the two, and keeps it in a status store that the HTTP
//! surfaces read.

pub mod verdict;
pub mod chain_head;
pub mod cycle;
pub mod store;
pub mod publish;
pub mod clock;
