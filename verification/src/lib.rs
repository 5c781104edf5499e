//! Verified core of a small family of networked services: a Fibonacci
//! cluster that farms work out to nodes, a file drop keyed by random room
//! phrases, and a ping/pong exchange.

pub mod fib_spec;
pub mod fib64;
pub mod fib32;
pub mod cluster;
pub mod croc;
pub mod ping;
pub mod protocol;
