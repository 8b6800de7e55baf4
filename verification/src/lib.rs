//! The repository layer of a small blog: posts, tags, and the associations
//! between them.
//!
//! [`repositories::blog`] and [`repositories::tag`] hold the domain types and
//! the operations that a store offers. Each store is described by a table, a
//! mathematical value whose functions say what every operation comes to;
//! the stores in memory are proved to do exactly that. The persistent stores
//! do no input or output themselves: [`repositories::storage`] defines the
//! statements they name and the replies they take, and each of their
//! operations says, reply by reply, which statement comes next.
//! [`repositories::blog::fold`] rebuilds posts from the flat rows of a join.
//! [`handlers`] says which status answers which result of a store, and
//! [`validation`] which titles and names a request may carry.

pub mod handlers;
pub mod repositories;
pub mod validation;
