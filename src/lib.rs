//! Safe boundary to a native virtual-machine runtime: opaque handles for its
//! objects, C string transfer in both directions, OS error text, terminal
//! input decoding and the arguments of its logger.
pub mod cstr;
pub mod handles;
pub mod log;
pub mod oserr;
pub mod vtty;

pub use cstr::{c_string_bytes, first_nul, try_view_c_string, view_c_string, PtrAsStr};
pub use handles::{fd_pool_t, vm_instance, vm_instance_t, vtty_t};
pub use log::{vm_log_args, LogCall};
pub use oserr::{error_text, perror_line, perror_message};
pub use vtty::{decode_char, has_char, read_char};
