//! The arguments handed to the foreign logger.
use vstd::prelude::*;

use crate::cstr::{c_string_bytes, c_string_of};

verus! {

/// The two NUL-terminated buffers of one call of the foreign logger. They must
/// stay alive and in place until that call returns.
pub struct LogCall {
    /// The module name, terminated.
    pub module: Vec<u8>,
    /// The message, terminated.
    pub msg: Vec<u8>,
}

/// Builds the buffers for logging `msg` under the module name `module`.
pub fn vm_log_args(module: &str, msg: &str) -> (r: LogCall)
    ensures
        r.module@ == c_string_of(module@),
        r.msg@ == c_string_of(msg@),
{
    LogCall { module: c_string_bytes(module), msg: c_string_bytes(msg) }
}

} // verus!
