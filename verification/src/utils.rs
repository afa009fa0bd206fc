//! Supporting utilities: the progress model and the external-tool
//! dependency snapshot.

pub mod dependency_check;
pub mod progress;
