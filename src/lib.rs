//! Input preparation for an OCR command-line tool: validated image paths,
//! in-memory images written out to temporary PNG files, and the tool's
//! configuration with its rendered `key=value` variables.

pub mod args;
pub mod error;
pub mod input;

pub use input::Image;

pub use args::Args;
pub use error::{TessError, TessResult};

