//! An in-memory board of posts and users with the read queries and the
//! single create operation of a small GraphQL API.
pub mod model;
pub mod store;
pub mod resolver;
pub mod schema;
pub mod laws;
