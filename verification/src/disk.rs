//! Storage volumes.

pub mod disk_list;
