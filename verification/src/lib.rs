//! A minimal relational data store: users, posts, and votes, together with a
//! derived per-user vote total and the join query that reports each user's
//! name beside that total.

pub mod laws;
pub mod models;
pub mod storage;
