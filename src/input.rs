use vstd::prelude::*;
use vstd::string::*;

use crate::error::{TessError, TessResult};

verus! {

#[verifier::external_type_specification]
#[verifier::external_body]
pub struct ExDynamicImage(image::DynamicImage);

#[verifier::external_type_specification]
#[verifier::external_body]
pub struct ExTempPath(tempfile::TempPath);

/// The extension of the path written `p`, as text, or `None` where the path has none.
pub uninterp spec fn path_extension(p: Seq<char>) -> Option<Seq<char>>;

/// The upper-case form of `s`, as Unicode defines it.
pub uninterp spec fn upper_of(s: Seq<char>) -> Seq<char>;

/// Relies on std's `Path::extension`: the text after the last `.` of the
/// path's final component, absent where that component has no such `.`
/// (or only a leading one).
#[verifier::external_body]
fn extension_of(path: &str) -> (r: Option<String>)
    ensures
        match r {
            Some(e) => path_extension(path@) == Some(e@),
            None => path_extension(path@) is None,
        },
{
    std::path::Path::new(path).extension().and_then(|e| e.to_str()).map(|e| e.to_string())
}

/// Relies on std's `str::to_uppercase`: the result depends on the characters alone.
#[verifier::external_body]
fn uppercase(s: &str) -> (r: String)
    ensures
        r@ == upper_of(s@),
{
    s.to_uppercase()
}

/// A character that ends a path component on some platform: `/`, `\`, or
/// the `:` of a drive.
pub open spec fn is_path_delimiter(c: char) -> bool {
    c == '/' || c == '\\' || c == ':'
}

/// Whether no character of `s` ends a path component.
pub open spec fn delimiter_free(s: Seq<char>) -> bool {
    forall|i: int| 0 <= i < s.len() ==> !is_path_delimiter(#[trigger] s[i])
}

/// Whether the final component of the path written `p` starts with `prefix`
/// and ends with `suffix`, and a delimiter stands before it.
pub open spec fn final_component_has(p: Seq<char>, prefix: Seq<char>, suffix: Seq<char>) -> bool {
    exists|i: int|
        #![trigger p.subrange(i, p.len() as int)]
        1 <= i <= p.len() && is_path_delimiter(p[i - 1]) && {
            let name = p.subrange(i, p.len() as int);
            &&& delimiter_free(name)
            &&& name.len() >= prefix.len() + suffix.len()
            &&& name.take(prefix.len() as int) == prefix
            &&& name.skip(name.len() - suffix.len()) == suffix
        }
}

/// Relies on `tempfile::Builder::tempfile`: a new empty file in the system's
/// temporary directory, kept as a `TempPath`, which deletes the file when
/// dropped, with its path as text where that is valid UTF-8; the error, if
/// any, as text. The file's name is `prefix`, then random ASCII letters and
/// digits, then `suffix`, joined onto the (absolute) temporary directory.
/// Whether it succeeds, and the directory, depend on the machine.
#[verifier::external_body]
fn create_tempfile(prefix: &str, suffix: &str) -> (r: Result<
    (tempfile::TempPath, Option<String>),
    String,
>)
    requires
        delimiter_free(prefix@),
        delimiter_free(suffix@),
    ensures
        r matches Ok((_, Some(p))) ==> final_component_has(p@, prefix@, suffix@),
{
    match tempfile::Builder::new().prefix(prefix).suffix(suffix).tempfile() {
        Ok(f) => {
            let file = f.into_temp_path();
            let text = file.to_str().map(|t| t.to_string());
            Ok((file, text))
        },
        Err(e) => Err(e.to_string()),
    }
}

/// Relies on `image::DynamicImage::save_with_format`: encodes `img` as PNG
/// into the file at `file`'s path; the error, if any, as text.
#[verifier::external_body]
fn save_png(img: &image::DynamicImage, file: &tempfile::TempPath) -> (r: Result<(), String>) {
    img.save_with_format(file, image::ImageFormat::Png).map_err(|e| e.to_string())
}

/// The extensions, in upper case, of the image formats that the tool reads.
pub open spec fn allowed_extension(ext: Seq<char>) -> bool {
    ||| ext == "JPEG"@
    ||| ext == "JPG"@
    ||| ext == "PNG"@
    ||| ext == "PBM"@
    ||| ext == "PGM"@
    ||| ext == "PPM"@
    ||| ext == "TIFF"@
    ||| ext == "BMP"@
    ||| ext == "GIF"@
    ||| ext == "WEBP"@
}

/// Whether `ext`, an extension already in upper case, names a supported format.
pub fn is_allowed_extension(ext: &String) -> (r: bool)
    ensures
        r == allowed_extension(ext@),
{
    let names: [&str; 10] = ["JPEG", "JPG", "PNG", "PBM", "PGM", "PPM", "TIFF", "BMP", "GIF", "WEBP"];
    let mut i: usize = 0;
    while i < 10
        invariant
            0 <= i <= 10,
            names@ == seq!["JPEG", "JPG", "PNG", "PBM", "PGM", "PPM", "TIFF", "BMP", "GIF", "WEBP"],
            forall|j: int| 0 <= j < i ==> ext@ != names@[j]@,
        decreases 10 - i,
    {
        let name = String::from_str(names[i]);
        if *ext == name {
            return true;
        }
        i = i + 1;
    }
    false
}

} // verus!

verus! {

/// Whether the path written `p` names a supported image format: it has an
/// extension, and that extension in upper case is in the allow-list.
pub open spec fn has_supported_format(p: Seq<char>) -> bool {
    match path_extension(p) {
        Some(ext) => allowed_extension(upper_of(ext)),
        None => false,
    }
}

/// What taking the path `path` gives: an image that resolves to `path` where
/// its format is supported, else `ImageFormatError`.
pub open spec fn from_path_outcome(path: Seq<char>, r: TessResult<Image>) -> bool {
    match r {
        Ok(img) => has_supported_format(path) && img.path_view() == path && !img.is_temporary(),
        Err(e) => !has_supported_format(path) && e == TessError::ImageFormatError,
    }
}

/// Whether `path` is what `img` resolves to.
pub open spec fn resolves_to(img: Image, path: Seq<char>) -> bool {
    path == img.path_view()
}

/// A path whose extension, in upper case, is in the allow-list is taken, and
/// the image resolves to that path unchanged.
pub proof fn lemma_supported_path_taken(path: Seq<char>, r: TessResult<Image>)
    requires
        path_extension(path) matches Some(ext) && allowed_extension(upper_of(ext)),
        from_path_outcome(path, r),
    ensures
        r matches Ok(img) && resolves_to(img, path),
{
}

/// A path without an extension, or with one whose upper-case form is not in
/// the allow-list, is refused with `ImageFormatError`.
pub proof fn lemma_unsupported_path_refused(path: Seq<char>, r: TessResult<Image>)
    requires
        match path_extension(path) {
            Some(ext) => !allowed_extension(upper_of(ext)),
            None => true,
        },
        from_path_outcome(path, r),
    ensures
        r == Err::<Image, TessError>(TessError::ImageFormatError),
{
}

/// Resolving the same image twice gives the same path.
pub proof fn lemma_resolution_stable(img: Image, first: Seq<char>, second: Seq<char>)
    requires
        resolves_to(img, first),
        resolves_to(img, second),
    ensures
        first == second,
{
}

/// Where an [`Image`] comes from.
#[derive(Debug)]
enum InputData {
    /// A file that was there already, by its path.
    Path(String),
    /// A temporary file that this value owns and deletes when dropped, with
    /// its path as text.
    Image { file: tempfile::TempPath, path: String },
}

/// An image handed to the OCR tool, resolved to a path on disk.
#[derive(Debug)]
pub struct Image {
    data: InputData,
}

impl Image {
    /// The path that the image resolves to.
    pub closed spec fn path_view(&self) -> Seq<char> {
        match self.data {
            InputData::Path(p) => p@,
            InputData::Image { path, .. } => path@,
        }
    }

    /// Whether the image is held in a temporary file of its own.
    pub closed spec fn is_temporary(&self) -> bool {
        self.data is Image
    }

    /// Takes an existing image file by its path. The path is kept as it is;
    /// only its extension is checked, the file is not opened.
    pub fn from_path(path: &str) -> (r: TessResult<Self>)
        ensures
            from_path_outcome(path@, r),
    {
        Self::check_image_format(path)?;
        Ok(Image { data: InputData::Path(path.to_string()) })
    }

    fn check_image_format(path: &str) -> (r: TessResult<()>)
        ensures
            match r {
                Ok(_) => has_supported_format(path@),
                Err(e) => !has_supported_format(path@) && e == TessError::ImageFormatError,
            },
    {
        match extension_of(path) {
            Some(ext) => {
                let upper = uppercase(ext.as_str());
                if is_allowed_extension(&upper) {
                    Ok(())
                } else {
                    Err(TessError::ImageFormatError)
                }
            },
            None => Err(TessError::ImageFormatError),
        }
    }

    /// Writes `image` as PNG into a new temporary file and takes that file.
    /// The file is deleted when the returned value is dropped. Fails with
    /// `TempfileError` where no file can be made, `ImageNotFoundError` where
    /// its path is not UTF-8, and `DynamicImageError` where the image cannot
    /// be encoded or written; the first and the last carry the cause as text.
    pub fn from_dynamic_image(image: &image::DynamicImage) -> (r: TessResult<Self>)
        ensures
            match r {
                Ok(img) => img.is_temporary() && final_component_has(
                    img.path_view(),
                    "rusty-tesseract"@,
                    ".png"@,
                ),
                Err(e) => e is TempfileError || e is ImageNotFoundError || e is DynamicImageError,
            },
    {
        proof {
            reveal_strlit("rusty-tesseract");
            reveal_strlit(".png");
        }
        let (file, path) = Self::take_tempfile(create_tempfile("rusty-tesseract", ".png"))?;
        let written = save_png(image, &file);
        Self::from_written_tempfile(file, path, written)
    }

    /// Takes the outcome of making a temporary file: the file and its path
    /// where both are there, `TempfileError` with the cause where no file was
    /// made, and `ImageNotFoundError` where its path is not UTF-8.
    pub fn take_tempfile(created: Result<(tempfile::TempPath, Option<String>), String>) -> (r:
        TessResult<(tempfile::TempPath, String)>)
        ensures
            match created {
                Ok((file, Some(path))) => r == Ok::<_, TessError>((file, path)),
                Ok((_, None)) => r == Err::<(tempfile::TempPath, String), _>(
                    TessError::ImageNotFoundError,
                ),
                Err(cause) => r == Err::<(tempfile::TempPath, String), _>(
                    TessError::TempfileError(cause),
                ),
            },
    {
        match created {
            Ok((file, Some(path))) => Ok((file, path)),
            Ok((_, None)) => Err(TessError::ImageNotFoundError),
            Err(cause) => Err(TessError::TempfileError(cause)),
        }
    }

    /// Takes a temporary file, whose path as text is `path`, into which an
    /// image was written, given the outcome of that write: the image where it
    /// succeeded, else `DynamicImageError` with its cause.
    pub fn from_written_tempfile(
        file: tempfile::TempPath,
        path: String,
        written: Result<(), String>,
    ) -> (r: TessResult<Self>)
        ensures
            match written {
                Ok(_) => r matches Ok(img) && img.is_temporary() && img.path_view() == path@,
                Err(cause) => r == Err::<Self, TessError>(TessError::DynamicImageError(cause)),
            },
    {
        match written {
            Ok(_) => Ok(Image { data: InputData::Image { file, path } }),
            Err(cause) => Err(TessError::DynamicImageError(cause)),
        }
    }

    /// The path that the image resolves to, as text. It never fails: a path
    /// that is not UTF-8 is refused when the image is made.
    pub fn get_image_path(&self) -> (r: TessResult<&str>)
        ensures
            r matches Ok(p) && resolves_to(*self, p@),
    {
        match &self.data {
            InputData::Path(p) => Ok(p.as_str()),
            InputData::Image { path, .. } => Ok(path.as_str()),
        }
    }

    /// The path that the image resolves to, as an owned string.
    pub fn to_string(&self) -> (r: String)
        ensures
            r@ == self.path_view(),
    {
        match &self.data {
            InputData::Path(p) => p.clone(),
            InputData::Image { path, .. } => path.clone(),
        }
    }
}

} // verus!
