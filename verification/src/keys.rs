//! The key pairs of a deployment, one drawn for each of the two that need one.
//!
//! A pair that was drawn for the CA cannot stand in for the server's, nor the other way
//! round: each has a type of its own, and drawing is the only way to come by one.
use crate::cert::has_private_half;
use vstd::prelude::*;

verus! {

/// A key pair that was drawn for the CA.
pub struct CaKey {
    pair: rcgen::KeyPair,
}

/// A key pair that was drawn for the server.
pub struct ServerKey {
    pair: rcgen::KeyPair,
}

impl View for CaKey {
    type V = rcgen::KeyPair;

    closed spec fn view(&self) -> rcgen::KeyPair {
        self.pair
    }
}

impl View for ServerKey {
    type V = rcgen::KeyPair;

    closed spec fn view(&self) -> rcgen::KeyPair {
        self.pair
    }
}

impl CaKey {
    /// Draws a key pair for the CA.
    pub fn draw() -> (drawn: Result<CaKey, rcgen::Error>)
        ensures
            drawn matches Ok(key) ==> has_private_half(key@),
    {
        match rcgen::KeyPair::generate() {
            Ok(pair) => Ok(CaKey { pair }),
            Err(cause) => Err(cause),
        }
    }

    /// The key pair itself.
    pub fn into_pair(self) -> (pair: rcgen::KeyPair)
        ensures
            pair == self@,
    {
        self.pair
    }
}

impl ServerKey {
    /// Draws a key pair for the server.
    pub fn draw() -> (drawn: Result<ServerKey, rcgen::Error>)
        ensures
            drawn matches Ok(key) ==> has_private_half(key@),
    {
        match rcgen::KeyPair::generate() {
            Ok(pair) => Ok(ServerKey { pair }),
            Err(cause) => Err(cause),
        }
    }

    /// The key pair itself.
    pub fn into_pair(self) -> (pair: rcgen::KeyPair)
        ensures
            pair == self@,
    {
        self.pair
    }
}

/// What a key says is the pair that it holds.
proof fn lemma_keys_are_their_pairs(ca: CaKey, server: ServerKey)
    ensures
        ca@ == ca.pair,
        server@ == server.pair,
{
}

} // verus!
