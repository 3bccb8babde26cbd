//! A safe, verified surface over a native buffered-stream interface:
//! line-oriented and delimiter-bounded reads, raw writes, and opaque
//! position bookmarks, with the native status codes and out-of-band
//! indicators translated into a typed error taxonomy.
//!
//! The native calls themselves (open, read, write, seek, close) are the
//! host program's concern; this crate owns every decision around them:
//! which byte strings a native call may be handed, how a finished read's
//! buffer, status code and indicators are interpreted, and when each
//! error of the taxonomy is returned.

pub mod cstr;
pub mod errors;
pub mod handle;
pub mod pos;
