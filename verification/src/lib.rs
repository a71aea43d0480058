//! A fixed-capacity, allocation-free-on-the-hot-path ring buffer together
//! with a small byte-counting instrumentation component used to observe
//! allocator activity around it.

pub mod monitoring;
pub mod queue;
