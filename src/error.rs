use vstd::prelude::*;

verus! {

/// The ways in which preparing an input can fail.
#[derive(Debug, Clone, PartialEq, Eq)]
pub enum TessError {
    /// The path has no extension, or one outside the supported image formats.
    ImageFormatError,
    /// A temporary file could not be created; holds the cause as text.
    TempfileError(String),
    /// The image could not be encoded or written; holds the cause as text.
    DynamicImageError(String),
    /// The path of an input cannot be represented as UTF-8.
    ImageNotFoundError,
}

pub type TessResult<T> = Result<T, TessError>;

} // verus!
