//! Calls from a native ledger contract into an EVM contract hosted by the same node:
//! call encoding, address mapping, status mapping, result decoding and the
//! wrapped-asset controllers built on them.
pub mod abi;
pub mod address;
pub mod calls;
pub mod erc;
pub mod fungible;
pub mod ledger;
pub mod messages;
pub mod nft;
pub mod word;
pub mod wrapper;
pub mod xvm;
