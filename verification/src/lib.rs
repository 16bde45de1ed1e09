pub mod device;
pub mod errors;
pub mod led;
pub mod products;
pub mod usb;
