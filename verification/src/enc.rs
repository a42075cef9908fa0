pub mod buffer;
pub mod encode;
pub mod interface;
pub mod oneshot;
