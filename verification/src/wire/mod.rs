//! The values that cross the encrypted channel.

pub mod attach;
pub mod caps;
pub mod envelope;
pub mod policy;
pub mod sticker;
