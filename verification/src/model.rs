//! The values that travel between the earbuds, the worker and its consumer.

pub mod buds_message;
pub mod buds_status;
pub mod device_info;
pub mod util;
