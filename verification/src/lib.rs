//! Verified core of a safe wrapper around the `libdummy` C library.
//!
//! The C calls themselves live outside this crate; what stands here is the
//! logic around them: how destinations are turned into C strings, how status
//! codes are read, the lifecycle of a registration (released at most once), how
//! a delivery from C reaches the user's handler, and the crate's errors.
#[allow(unused_imports)]
use vstd::prelude::*;

pub mod c_string;
pub mod callback;
pub mod my_lib_errors;
pub mod on_send;
pub mod registration;
pub mod status;

pub use c_string::c_string_bytes;
pub use callback::{decode_destination, RustSideHandler};
pub use my_lib_errors::{MyError, MyLibResult};
pub use on_send::{DeliveryLog, OnSend};
pub use registration::{FFICtx, Release, UserSpaceWrapper};
pub use status::status_succeeded;
