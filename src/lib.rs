//! Password hashing with a server-wide pepper, a time-bounded session store,
//! and the per-request authentication decisions built on them.

pub mod error;
pub mod util;
pub mod credential;
pub mod session;
pub mod pipeline;
pub mod user;
pub mod view;
