//! Input / Output protocols and related modules.

pub mod connector;
pub mod proc;
