pub mod paths;
pub mod validate;
pub mod source;
pub mod patch;
pub mod emulator;
pub mod installer;
