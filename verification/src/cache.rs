//! The cache-aside retrieval: its protocol, the machine that follows it, and
//! what retrievals achieve in a world of stores, codecs and resolvers.
pub mod laws;
pub mod protocol;
pub mod retrieval;
pub mod world;
