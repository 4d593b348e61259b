//! Todo records, the statements that read and write them, the replies the
//! service sends, and the client-side rules for completion timestamps.

pub mod client;
pub mod handlers;
pub mod query;
pub mod record;
pub mod store;
pub mod text;
