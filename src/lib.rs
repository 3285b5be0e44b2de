//! Anonymous proof of holding an NFT: a signer shows that the address
//! recovered from a signature over a fixed challenge is one of a collection's
//! holders, while only the holder list and the collection are made public.

pub mod types;
pub mod challenge;
pub mod circuit;
pub mod codec;
pub mod zk;
pub mod parse;
pub mod relay;
pub mod holders;
