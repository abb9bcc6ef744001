//! Generic item containers and a media catalog.
//!
//! The crate has two halves. The first is a capability-style container
//! abstraction: the [`container::Container`] trait asks only for `put`,
//! `get` and `is_empty`, and is implemented by two storage shapes, a
//! single-slot [`basket::Basket`] that overwrites on `put` and a LIFO
//! [`stack::Stack`] that queues. The second is [`media::Media`], a closed
//! tagged union of media kinds with an exhaustively dispatched description,
//! collected in an ordered, growable [`catalog::Catalog`] with fallible
//! indexed lookup.

pub mod basket;
pub mod catalog;
pub mod container;
pub mod media;
pub mod stack;
