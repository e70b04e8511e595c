pub mod classify;
pub mod codec;
pub mod error;
pub mod frame;
pub mod ocr;
pub mod pipeline;
pub mod region;
pub mod shortcut;
pub mod text;
pub mod window;
