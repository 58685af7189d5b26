//! The extension traits of the crate

pub use crate::flash::FlashExt;
pub use crate::gpio::GpioExt;
pub use crate::rcc::RccExt;
pub use crate::time::U32Ext;
