//! The MD5 compression function, verified against the definition of
//! RFC 1321.
pub mod compress;
pub mod consts;
pub mod laws;
pub mod spec;

pub use compress::compress;
