//! Image widgets: an image loaded from a path, and the decoded image it shows.
use crate::cache::image::{decoded_bgra8, RawImage, RawImageView};
use std::ops::Deref;
use vstd::prelude::*;

verus! {

/// How an image fills the space it is given.
#[derive(Clone, Copy, PartialEq, Debug, Hash, Eq, Structural)]
pub enum Scale {
    Fill,
    Fit,
}

/// An image shown at a scale.
#[derive(Clone)]
pub struct InnerImage {
    scale: Scale,
    image: RawImage,
}

impl InnerImage {
    pub closed spec fn spec_scale(&self) -> Scale {
        self.scale
    }

    /// The image shown.
    pub closed spec fn raw(&self) -> RawImageView {
        self.image@
    }

    pub closed spec fn raw_image(&self) -> RawImage {
        self.image
    }

    /// `raw` fitted to its space.
    pub closed spec fn fitted(raw: RawImage) -> InnerImage {
        InnerImage { scale: Scale::Fit, image: raw }
    }

    /// Shows `buf` as a `width` by `height` image, fitted to its space.
    pub fn from_raw(buf: Vec<u8>, width: u32, height: u32) -> (r: Self)
        requires
            width * height * 4 <= u32::MAX,
            width * height * 4 == buf@.len() % 0x1_0000_0000,
        ensures
            r.spec_scale() == Scale::Fit,
            r.raw() == (RawImageView { bytes: buf@, width, height }),
    {
        match RawImage::from_raw(buf, width, height) {
            Some(raw) => InnerImage::from(raw),
            None => {
                proof {
                    assert(false);
                }
                vstd::pervasive::unreached()
            },
        }
    }

    /// Shows the image that `bytes`, read from the file at `path`, encode, fitted to its
    /// space: `width * height` pixels of 4 bytes. When they do not decode, the decoding error
    /// is returned.
    pub fn decode(bytes: &[u8], path: &str) -> (r: Result<Self, image::ImageError>)
        ensures
            match decoded_bgra8(bytes@, path@) {
                Some((p, w, h)) => r matches Ok(image) && image.spec_scale() == Scale::Fit
                    && image.raw() == (RawImageView { bytes: p, width: w, height: h }),
                None => r is Err,
            },
            r matches Ok(image) ==> image.raw().bytes.len() == image.raw().width * image.raw().height
                * 4,
    {
        match RawImage::decode(bytes, path) {
            Ok(raw) => Ok(InnerImage { scale: Scale::Fit, image: raw }),
            Err(e) => Err(e),
        }
    }

    pub fn set_scale(&mut self, scale: Scale)
        ensures
            final(self).spec_scale() == scale,
            final(self).raw() == old(self).raw(),
    {
        self.scale = scale;
    }
}

impl From<RawImage> for InnerImage {
    /// Shows `raw`, fitted to its space.
    fn from(raw: RawImage) -> (r: Self) {
        Self { scale: Scale::Fit, image: raw }
    }
}

impl vstd::std_specs::convert::FromSpecImpl<RawImage> for InnerImage {
    open spec fn obeys_from_spec() -> bool {
        true
    }

    open spec fn from_spec(raw: RawImage) -> Self {
        InnerImage::fitted(raw)
    }
}

impl From<InnerImage> for RawImage {
    /// The image shown.
    fn from(image: InnerImage) -> (r: Self) {
        image.image
    }
}

impl vstd::std_specs::convert::FromSpecImpl<InnerImage> for RawImage {
    open spec fn obeys_from_spec() -> bool {
        true
    }

    open spec fn from_spec(image: InnerImage) -> Self {
        image.raw_image()
    }
}

impl Deref for InnerImage {
    type Target = RawImage;

    fn deref(&self) -> (r: &RawImage)
        ensures
            r@ == self.raw(),
    {
        &self.image
    }
}

/// An image read from a path when it is first laid out.
pub struct Image {
    path: String,
    size: Option<(u32, u32)>,
    inner: Option<InnerImage>,
}

impl Image {
    /// The path the image is read from.
    pub closed spec fn spec_path(&self) -> Seq<char> {
        self.path@
    }

    /// The size requested for the image.
    pub closed spec fn requested_size(&self) -> Option<(u32, u32)> {
        self.size
    }

    /// `true` once the image has been read.
    pub closed spec fn loaded(&self) -> bool {
        self.inner is Some
    }

    pub fn new(path: &str) -> (r: Self)
        ensures
            r.spec_path() == path@,
            r.requested_size() is None,
            !r.loaded(),
    {
        Self { path: path.to_owned(), size: None, inner: None }
    }
}

} // verus!
