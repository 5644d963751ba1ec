//! Network-facing pieces: the address value, interface resolution, and the
//! discovery request handlers.

pub mod addr;
pub mod netif;
pub mod udppkt;
pub mod udpreq;
