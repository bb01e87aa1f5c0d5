//! A hint: one decoded image, together with the handle of the texture that the renderer made
//! for it, once it has made one.

use vstd::prelude::*;
use vstd::string::StringExecFns;

verus! {

/// The image formats that the `image` crate knows. Nothing is known of a value of it but
/// whether there is one.
#[verifier::external_type_specification]
#[verifier::external_body]
pub struct ExImageFormat(image::ImageFormat);

/// The text with each of the letters `A` to `Z` replaced by its small letter.
pub open spec fn ascii_lowercase(text: Seq<char>) -> Seq<char> {
    Seq::new(
        text.len(),
        |i: int|
            if 'A' <= text[i] && text[i] <= 'Z' {
                ((text[i] as u32) + 32) as char
            } else {
                text[i]
            },
    )
}

/// Whether a file name's extension names an image format: it does if it is one of these,
/// in small or capital letters.
pub open spec fn is_image_extension(extension: Seq<char>) -> bool {
    let lower = ascii_lowercase(extension);
    ||| lower == "avif"@
    ||| lower == "jpg"@
    ||| lower == "jpeg"@
    ||| lower == "png"@
    ||| lower == "gif"@
    ||| lower == "webp"@
    ||| lower == "tif"@
    ||| lower == "tiff"@
    ||| lower == "tga"@
    ||| lower == "dds"@
    ||| lower == "bmp"@
    ||| lower == "ico"@
    ||| lower == "hdr"@
    ||| lower == "exr"@
    ||| lower == "pbm"@
    ||| lower == "pam"@
    ||| lower == "ppm"@
    ||| lower == "pgm"@
    ||| lower == "ff"@
    ||| lower == "farbfeld"@
    ||| lower == "qoi"@
}

/// The format that `image::ImageFormat::from_extension` gives for an extension.
///
/// Not proved: that it gives one exactly for the extensions of [`is_image_extension`],
/// which is the table in that function's source.
#[verifier::external_body]
fn format_from_extension(extension: &str) -> (format: Option<image::ImageFormat>)
    ensures
        format is Some <==> is_image_extension(extension@),
{
    image::ImageFormat::from_extension(extension)
}

/// Whether the extension of a file's name, if it has one, names an image format that the
/// `image` crate knows: see [`is_image_extension`].
pub fn names_format(extension: Option<&str>) -> (known: bool)
    ensures
        known <==> (extension matches Some(extension) && is_image_extension(extension@)),
{
    match extension {
        Some(extension) => format_from_extension(extension).is_some(),
        None => false,
    }
}

/// Why no hint could be made.
#[derive(Debug, Clone, PartialEq, Eq)]
pub enum HintError {
    /// The file's name has no extension, or one that names no image format.
    UnknownFormat,
    /// The file's contents could not be decoded in the format that its extension names;
    /// the text is the decoder's reason.
    Undecodable(String),
    /// The number of samples is not four for each pixel.
    BufferSize,
}

impl HintError {
    /// The text that is shown for the error: the decoder's reason where it gave one.
    pub open spec fn text(self) -> Seq<char> {
        match self {
            HintError::UnknownFormat => "The image format could not be determined"@,
            HintError::Undecodable(reason) => reason@,
            HintError::BufferSize => "The image does not hold four samples for each pixel"@,
        }
    }

    /// The text that is shown for the error.
    pub fn to_string(&self) -> (text: String)
        ensures
            text@ == self.text(),
    {
        match self {
            HintError::UnknownFormat => String::from_str("The image format could not be determined"),
            HintError::Undecodable(reason) => reason.clone(),
            HintError::BufferSize => String::from_str(
                "The image does not hold four samples for each pixel",
            ),
        }
    }
}

/// Number of bytes that an RGBA8 image of the given size takes: four for each pixel.
pub open spec fn rgba8_len(width: u32, height: u32) -> int {
    4 * (width as int) * (height as int)
}

/// What a [`Hint`] holds.
pub struct HintView {
    /// Width of the image in pixels.
    pub width: u32,
    /// Height of the image in pixels.
    pub height: u32,
    /// The samples, row by row, four for each pixel.
    pub pixels: Seq<u8>,
    /// The texture that the renderer made for the image, while there is one.
    pub texture_id: Option<usize>,
}

impl HintView {
    /// There are exactly four samples for each pixel.
    pub open spec fn wf(self) -> bool {
        self.pixels.len() == rgba8_len(self.width, self.height)
    }

    /// The same image, without a texture.
    pub open spec fn without_texture(self) -> HintView {
        HintView { texture_id: None, ..self }
    }

    /// The same image, with the given texture if it has none yet.
    pub open spec fn with_cached(self, created: Option<usize>) -> HintView {
        if self.texture_id is Some {
            self
        } else {
            HintView { texture_id: created, ..self }
        }
    }
}

/// The hint that a decoder's outcome gives. The outcome is `None` where there is no format
/// to decode in, an error with the decoder's reason where the contents could not be
/// decoded, and else the width, the height and the RGBA8 samples of the image.
pub open spec fn hint_of_decoded(
    decoded: Option<Result<(u32, u32, Vec<u8>), String>>,
) -> Result<HintView, HintError> {
    match decoded {
        None => Err(HintError::UnknownFormat),
        Some(Err(reason)) => Err(HintError::Undecodable(reason)),
        Some(Ok((width, height, pixels))) => {
            if pixels@.len() == rgba8_len(width, height) {
                Ok(HintView { width, height, pixels: pixels@, texture_id: None })
            } else {
                Err(HintError::BufferSize)
            }
        },
    }
}

/// What was made, with the hint taken by its view.
pub open spec fn outcome_view(made: Result<Hint, HintError>) -> Result<HintView, HintError> {
    match made {
        Ok(hint) => Ok(hint@),
        Err(error) => Err(error),
    }
}

/// A single loaded image with a lazily created renderer-side texture handle.
#[derive(Debug)]
pub struct Hint {
    width: u32,
    height: u32,
    pixels: Vec<u8>,
    texture_id: Option<usize>,
}

impl View for Hint {
    type V = HintView;

    closed spec fn view(&self) -> HintView {
        HintView {
            width: self.width,
            height: self.height,
            pixels: self.pixels@,
            texture_id: self.texture_id,
        }
    }
}

impl Hint {
    /// The hint is well formed: it has four samples for each pixel.
    pub open spec fn wf(&self) -> bool {
        self@.wf()
    }

    /// Makes a hint of an RGBA8 image. It has no texture yet.
    ///
    /// Fails with [`HintError::BufferSize`] unless `pixels` holds four samples for each pixel.
    pub fn from_rgba8(width: u32, height: u32, pixels: Vec<u8>) -> (made: Result<Hint, HintError>)
        ensures
            made is Ok <==> pixels@.len() == rgba8_len(width, height),
            made matches Ok(hint) ==> hint.wf() && hint@ == (HintView {
                width,
                height,
                pixels: pixels@,
                texture_id: None,
            }),
            made matches Err(error) ==> error == HintError::BufferSize,
    {
        let samples: u128 = pixels.len() as u128;
        assert((width as int) * (height as int) <= 0xffff_ffff * 0xffff_ffff) by (nonlinear_arith)
            requires
                0 <= width <= 0xffff_ffff,
                0 <= height <= 0xffff_ffff,
        ;
        let area: u128 = (width as u128) * (height as u128);
        let wanted: u128 = 4 * area;
        assert(wanted == rgba8_len(width, height)) by (nonlinear_arith)
            requires
                wanted == 4 * area,
                area == (width as int) * (height as int),
        ;
        if samples == wanted {
            Ok(Hint { width, height, pixels, texture_id: None })
        } else {
            Err(HintError::BufferSize)
        }
    }

    /// Makes a hint of a decoder's outcome: see [`hint_of_decoded`]. The outcome is `None`
    /// where the file was not decoded because its extension names no format: see
    /// [`names_format`].
    pub fn from_decoded(decoded: Option<Result<(u32, u32, Vec<u8>), String>>) -> (made: Result<
        Hint,
        HintError,
    >)
        ensures
            outcome_view(made) == hint_of_decoded(decoded),
            made matches Ok(hint) ==> hint.wf(),
    {
        match decoded {
            None => Err(HintError::UnknownFormat),
            Some(Err(reason)) => Err(HintError::Undecodable(reason)),
            Some(Ok((width, height, pixels))) => Hint::from_rgba8(width, height, pixels),
        }
    }

    /// Width and height of the image, in pixels.
    pub fn dimensions(&self) -> (size: (u32, u32))
        ensures
            size == (self@.width, self@.height),
    {
        (self.width, self.height)
    }

    /// The samples of the image, row by row, four for each pixel.
    pub fn pixels(&self) -> (pixels: &Vec<u8>)
        ensures
            pixels@ == self@.pixels,
    {
        &self.pixels
    }

    /// The texture that was made for this hint, if one is held.
    pub fn texture_id(&self) -> (texture_id: Option<usize>)
        ensures
            texture_id == self@.texture_id,
    {
        self.texture_id
    }

    /// Takes note of the outcome of an attempt to make a texture for this hint: `created` is
    /// the new texture, or `None` where the renderer could make none. A hint that holds a
    /// texture keeps it. Returns the texture that the hint holds afterwards.
    pub fn cache_texture(&mut self, created: Option<usize>) -> (texture_id: Option<usize>)
        ensures
            final(self)@ == old(self)@.with_cached(created),
            texture_id == final(self)@.texture_id,
    {
        if self.texture_id.is_none() {
            self.texture_id = created;
        }
        self.texture_id
    }

    /// Gives up the texture of this hint and returns it, for the renderer to release.
    pub fn deallocate_texture(&mut self) -> (released: Option<usize>)
        ensures
            released == old(self)@.texture_id,
            final(self)@ == old(self)@.without_texture(),
    {
        let released = self.texture_id;
        self.texture_id = None;
        released
    }
}

} // verus!
