//! A persistent record store for rental records.
//!
//! The store composes a region allocator over one flat byte space, a durable
//! id counter kept in one region, and an ordered id-to-bytes map kept in
//! another, together with a bounded-size codec that turns each record into a
//! self-describing byte string.  The allocator, counter cell and ordered map
//! come from `ic_stable_structures` and stand behind trusted wrappers; the
//! codec, the identifier rules and the create/read/update/delete logic are
//! verified.

pub mod backing;
pub mod codec;
pub mod laws;
pub mod rental;
pub mod store;
pub mod text;
