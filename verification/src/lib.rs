pub mod driver;
pub mod error;
pub mod escpos;
pub mod hexline;
pub mod markup;
pub mod printer;
pub mod status;
pub mod text;
pub mod usb;
