//! Read-side assembly of personalised comment views: joins, visibility
//! rules, ranking, pagination and subtree queries over a store snapshot.

pub mod laws;
pub mod lookup;
pub mod model;
pub mod query;
pub mod search;
pub mod sort;
pub mod tree_path;
pub mod view;
