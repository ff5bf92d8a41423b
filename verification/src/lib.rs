pub mod channel;
pub mod checksum;
pub mod codec;
