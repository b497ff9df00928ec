pub mod hardware;
pub mod device;
pub mod emulator;
