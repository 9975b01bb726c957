//! A reusable pool of read buffers, and the lookup cache and open-handle
//! bookkeeping that keep cached remote identities from going stale.
pub mod buffer_pool;
pub mod buffers;
pub mod cache;
pub mod open_file;

