//! Building blocks for running latency-sensitive work without
//! memory-management page faults: arithmetic for touching every page of a
//! region, a page-fault delta reporter, the diagnostic report format, and an
//! abstract model of the residency behaviour the technique relies on.

pub mod faults;
pub mod model;
pub mod pages;
pub mod report;
pub mod rt;
