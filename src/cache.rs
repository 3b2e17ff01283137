//! Single-slot store of the most recently rendered image.
//!
//! The display layer reports the viewport size on every redraw; only an
//! explicit render request computes a new image, and reads in between return
//! the held image unchanged.
use crate::frame::{frame_pixels, generate, Rgb};
use vstd::prelude::*;

verus! {

/// What a rendered image holds: its dimensions and its samples.
pub ghost struct ImageModel {
    pub width: nat,
    pub height: nat,
    pub pixels: Seq<Rgb>,
}

/// What a cache holds: the size last reported and the image, if any.
pub ghost struct CacheModel {
    pub pending_width: nat,
    pub pending_height: nat,
    pub image: Option<ImageModel>,
}

/// A pixel buffer paired with the dimensions it was generated for.
pub struct RenderedImage {
    width: usize,
    height: usize,
    pixels: Vec<Rgb>,
}

impl View for RenderedImage {
    type V = ImageModel;

    closed spec fn view(&self) -> ImageModel {
        ImageModel { width: self.width as nat, height: self.height as nat, pixels: self.pixels@ }
    }
}

impl RenderedImage {
    #[verifier::type_invariant]
    spec fn inv(&self) -> bool {
        self.pixels@.len() == self.width * self.height
    }

    /// Width, in pixels, that the image was generated for.
    pub fn width(&self) -> (w: usize)
        ensures
            w == self@.width,
    {
        self.width
    }

    /// Height, in pixels, that the image was generated for.
    pub fn height(&self) -> (h: usize)
        ensures
            h == self@.height,
    {
        self.height
    }

    /// The samples, row-major; there are exactly `width * height` of them.
    pub fn pixels(&self) -> (p: &[Rgb])
        ensures
            p@ == self@.pixels,
            p@.len() == self@.width * self@.height,
    {
        proof {
            use_type_invariant(self);
        }
        self.pixels.as_slice()
    }
}

/// The image that a read of the cache hands out, as a model.
pub open spec fn image_model(r: Option<&RenderedImage>) -> Option<ImageModel> {
    match r {
        Some(img) => Some(img@),
        None => None,
    }
}

/// Holds at most one rendered image, plus the viewport size last reported.
pub struct PresentationCache {
    pending_width: usize,
    pending_height: usize,
    image: Option<RenderedImage>,
}

impl View for PresentationCache {
    type V = CacheModel;

    closed spec fn view(&self) -> CacheModel {
        CacheModel {
            pending_width: self.pending_width as nat,
            pending_height: self.pending_height as nat,
            image: match self.image {
                Some(img) => Some(img@),
                None => None,
            },
        }
    }
}

impl PresentationCache {
    #[verifier::type_invariant]
    spec fn inv(&self) -> bool {
        match self.image {
            Some(img) => img@.pixels == frame_pixels(img@.width, img@.height),
            None => true,
        }
    }

    /// An empty cache; the pending size starts as zero by zero.
    pub fn new() -> (c: Self)
        ensures
            c@.pending_width == 0,
            c@.pending_height == 0,
            c@.image is None,
    {
        PresentationCache { pending_width: 0, pending_height: 0, image: None }
    }

    /// Records the latest viewport size; the held image is left as it is.
    pub fn report_viewport_size(&mut self, width: usize, height: usize)
        ensures
            final(self)@.pending_width == width,
            final(self)@.pending_height == height,
            final(self)@.image == old(self)@.image,
    {
        proof {
            use_type_invariant(&*self);
        }
        self.pending_width = width;
        self.pending_height = height;
    }

    /// The size last reported, as (width, height).
    pub fn pending_size(&self) -> (r: (usize, usize))
        ensures
            r.0 == self@.pending_width,
            r.1 == self@.pending_height,
    {
        (self.pending_width, self.pending_height)
    }

    /// Generates a frame at the pending size and puts it in place of the held
    /// image, if any.
    pub fn render_now(&mut self)
        requires
            old(self)@.pending_width * old(self)@.pending_height <= usize::MAX,
        ensures
            final(self)@.pending_width == old(self)@.pending_width,
            final(self)@.pending_height == old(self)@.pending_height,
            final(self)@.image == Some(
                ImageModel {
                    width: old(self)@.pending_width,
                    height: old(self)@.pending_height,
                    pixels: frame_pixels(old(self)@.pending_width, old(self)@.pending_height),
                },
            ),
    {
        let pixels = generate(self.pending_width, self.pending_height);
        let img = RenderedImage { width: self.pending_width, height: self.pending_height, pixels };
        self.image = Some(img);
    }

    /// The held image, or `None` before the first render.
    pub fn current_image(&self) -> (r: Option<&RenderedImage>)
        ensures
            image_model(r) == self@.image,
            r matches Some(img) ==> img@.pixels == frame_pixels(img@.width, img@.height),
    {
        proof {
            use_type_invariant(self);
        }
        self.image.as_ref()
    }
}

impl Default for PresentationCache {
    /// Same as [`PresentationCache::new`].
    fn default() -> (c: Self)
        ensures
            c@.pending_width == 0,
            c@.pending_height == 0,
            c@.image is None,
    {
        PresentationCache::new()
    }
}

/// Reading is free of effects: two reads of the same cache, with no render in
/// between, hand out the same image or both nothing.
pub proof fn lemma_read_idempotent(
    cache: &PresentationCache,
    first: Option<&RenderedImage>,
    second: Option<&RenderedImage>,
)
    requires
        image_model(first) == cache@.image,
        image_model(second) == cache@.image,
    ensures
        image_model(first) == image_model(second),
{
}

} // verus!
