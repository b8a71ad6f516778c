//! The decision core of a small HTTP service over two tables, users and posts.
//!
//! A request is looked up in the route table ([`router`]), its handler names the one
//! statement to run ([`handlers`], [`statement`], [`operation`]), and once the store has
//! answered, the handler turns the outcome into the response ([`handlers`], [`status`],
//! [`store`]). The library performs no I/O: listening, decoding bodies and running
//! statements are the caller's part.
//!
//! [`tables`] says what the statements mean on a store that enforces its primary keys,
//! [`memory`] is such a store held in memory, and [`laws`] holds what follows for the
//! handlers.

pub mod entity;
pub mod handlers;
pub mod laws;
pub mod memory;
pub mod operation;
pub mod router;
pub mod statement;
pub mod status;
pub mod store;
pub mod tables;
