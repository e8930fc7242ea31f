//! Marker types for objects that the foreign runtime owns. They have no
//! fields that can be read and no way to build one: the safe side only ever
//! holds pointers to them, obtained from the foreign side.
use vstd::prelude::*;

verus! {

/// A virtual-machine instance of the foreign runtime.
#[allow(non_camel_case_types)]
pub struct vm_instance(());

/// The name the foreign runtime gives to [`vm_instance`].
#[allow(non_camel_case_types)]
pub type vm_instance_t = vm_instance;

/// A virtual terminal of the foreign runtime.
#[allow(non_camel_case_types)]
pub struct vtty_t(());

/// A pool of OS resource descriptors kept by the foreign runtime.
#[allow(non_camel_case_types)]
pub struct fd_pool_t(());

} // verus!
