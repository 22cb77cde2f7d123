//! Fixed-length byte blobs embedded in message memory, with an immutable
//! view (`Reader`) and a mutable, non-resizable view (`Builder`).

pub mod data;
pub mod laws;
pub mod ptr;

pub use data::{Builder, Data, Family, Reader, TryFromSliceError};
pub use ptr::MAX_BLOB_LEN;
