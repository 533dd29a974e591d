//! Hardware management of the access flag and dirty state on AArch64.
//!
//! The crate decides; it never touches the CPU. The caller reads the system
//! registers and hands their values in, and performs what comes back: a write
//! to `TCR_EL1` followed by a barrier, or a cache flush of a virtual range.

pub mod control;
pub mod flush;
pub mod paging;

pub use control::{dbm_available, set_dbm_enabled, SysRegOp, TcrUpdate};
pub use flush::{decide_flush, flush_dirty_range, is_leaf_pte, FlushRange};
