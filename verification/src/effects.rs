//! A plain-data model of the image filter construction API that the built
//! library exposes. A filter is a description tree: constructors validate
//! their inputs and say exactly which tree they build, and exactly when
//! construction is refused.

use vstd::prelude::*;

verus! {

/// A raster image, described by its pixel dimensions.
#[derive(Clone, Copy, Debug, PartialEq, Eq, Hash, Structural)]
pub struct Image {
    pub width: i32,
    pub height: i32,
}

impl Image {
    /// An image has positive dimensions.
    pub open spec fn wf(self) -> bool {
        self.width > 0 && self.height > 0
    }

    /// Describes an image. Refused exactly when a dimension is not
    /// positive.
    pub fn new(width: i32, height: i32) -> (r: Option<Image>)
        ensures
            r == (if width > 0 && height > 0 {
                Some(Image { width, height })
            } else {
                None::<Image>
            }),
    {
        if width > 0 && height > 0 {
            Some(Image { width, height })
        } else {
            None
        }
    }
}

/// A geometry rectangle, as the filter bounds use it.
#[derive(Clone, Copy, Debug, PartialEq, Eq, Hash, Structural)]
pub struct Rect {
    pub left: i32,
    pub top: i32,
    pub right: i32,
    pub bottom: i32,
}

impl Rect {
    /// A rectangle with no interior.
    pub open spec fn spec_is_empty(self) -> bool {
        self.right <= self.left || self.bottom <= self.top
    }

    /// Whether this rectangle has no interior.
    pub fn is_empty(&self) -> (r: bool)
        ensures
            r == self.spec_is_empty(),
    {
        self.right <= self.left || self.bottom <= self.top
    }
}

/// The bounds of an image, anchored at the origin.
pub open spec fn spec_image_bounds(image: Image) -> Rect {
    Rect { left: 0, top: 0, right: image.width, bottom: image.height }
}

/// An integral device-space rectangle, as crop rectangles use it.
#[derive(Clone, Copy, Debug, PartialEq, Eq, Hash, Structural)]
pub struct IRect {
    pub left: i32,
    pub top: i32,
    pub right: i32,
    pub bottom: i32,
}

/// A region of interest, described by its integral bounds.
#[derive(Clone, Copy, Debug, PartialEq, Eq, Hash, Structural)]
pub struct Region {
    pub bounds: IRect,
}

impl Region {
    /// A region with no interior.
    pub open spec fn spec_is_empty(self) -> bool {
        self.bounds.right <= self.bounds.left || self.bounds.bottom <= self.bounds.top
    }

    /// Whether this region has no interior.
    pub fn is_empty(&self) -> (r: bool)
        ensures
            r == self.spec_is_empty(),
    {
        self.bounds.right <= self.bounds.left || self.bounds.bottom <= self.bounds.top
    }
}

/// How an image is resampled when a filter scales it.
#[derive(Clone, Copy, Debug, PartialEq, Eq, Hash, Structural)]
pub enum FilterQuality {
    Nearest,
    Low,
    Medium,
    High,
}

/// A color filter description. The luminance-to-alpha filter is the one
/// this model knows.
#[derive(Clone, Copy, Debug, PartialEq, Eq, Hash, Structural)]
pub enum ColorFilter {
    Luma,
}

impl ColorFilter {
    /// The filter that turns luminance into alpha.
    pub fn luma() -> (r: ColorFilter)
        ensures
            r == ColorFilter::Luma,
    {
        ColorFilter::Luma
    }
}

/// A fill description, as a paint-backed filter records it.
#[derive(Clone, Copy, Debug, PartialEq, Eq, Hash, Structural)]
pub struct Paint {
    /// The fill color, as ARGB bytes.
    pub color: u32,
    pub anti_alias: bool,
}

impl Paint {
    /// An opaque black paint without anti-aliasing.
    pub fn new() -> (r: Paint)
        ensures
            r == (Paint { color: 0xff000000u32, anti_alias: false }),
    {
        Paint { color: 0xff000000, anti_alias: false }
    }
}

/// An image filter description: a tree whose leaves are images or paints
/// and whose inner nodes transform or combine their inputs.
#[derive(Debug)]
pub enum ImageFilter {
    /// Draws an image, mapping a source rectangle of it onto a destination
    /// rectangle.
    ImageSource { image: Image, src_rect: Rect, dst_rect: Rect, quality: FilterQuality },
    /// Maps the alpha of the input filter into the given range, inside and
    /// outside the region.
    AlphaThreshold {
        region: Region,
        inner_min: u8,
        outer_max: u8,
        input: Box<ImageFilter>,
        crop: Option<IRect>,
    },
    /// Draws the given filters on top of each other; an absent entry stands
    /// for the source bitmap.
    Merge { inputs: Vec<Option<ImageFilter>>, crop: Option<IRect> },
    /// Fills the output with a paint.
    FromPaint { paint: Paint, crop: Option<IRect> },
}

impl ImageFilter {
    /// Describes a filter that draws the whole image at its own bounds, at
    /// the highest resampling quality. Refused exactly when the image has
    /// no interior.
    pub fn from_image(image: Image) -> (r: Option<ImageFilter>)
        ensures
            r == (if image.wf() {
                Some(
                    ImageFilter::ImageSource {
                        image,
                        src_rect: spec_image_bounds(image),
                        dst_rect: spec_image_bounds(image),
                        quality: FilterQuality::High,
                    },
                )
            } else {
                None::<ImageFilter>
            }),
    {
        if image.width > 0 && image.height > 0 {
            let bounds = Rect { left: 0, top: 0, right: image.width, bottom: image.height };
            Some(
                ImageFilter::ImageSource {
                    image,
                    src_rect: bounds,
                    dst_rect: bounds,
                    quality: FilterQuality::High,
                },
            )
        } else {
            None
        }
    }

    /// Describes a filter that maps a source rectangle of the image onto a
    /// destination rectangle. Refused exactly when the image or either
    /// rectangle has no interior.
    pub fn from_image_rect(
        image: Image,
        src_rect: Rect,
        dst_rect: Rect,
        filter_quality: FilterQuality,
    ) -> (r: Option<ImageFilter>)
        ensures
            r == (if image.wf() && !src_rect.spec_is_empty() && !dst_rect.spec_is_empty() {
                Some(ImageFilter::ImageSource { image, src_rect, dst_rect, quality: filter_quality })
            } else {
                None::<ImageFilter>
            }),
    {
        if image.width > 0 && image.height > 0 && !src_rect.is_empty() && !dst_rect.is_empty() {
            Some(ImageFilter::ImageSource { image, src_rect, dst_rect, quality: filter_quality })
        } else {
            None
        }
    }

    /// Describes a filter that maps the input filter's alpha into the range
    /// `inner_min ..= outer_max` inside and outside the region. Refused
    /// exactly when the region has no interior or the range is reversed.
    pub fn alpha_threshold(
        self,
        crop_rect: Option<IRect>,
        region: &Region,
        inner_min: u8,
        outer_max: u8,
    ) -> (r: Option<ImageFilter>)
        ensures
            r == (if !region.spec_is_empty() && inner_min <= outer_max {
                Some(
                    ImageFilter::AlphaThreshold {
                        region: *region,
                        inner_min,
                        outer_max,
                        input: Box::new(self),
                        crop: crop_rect,
                    },
                )
            } else {
                None::<ImageFilter>
            }),
    {
        if !region.is_empty() && inner_min <= outer_max {
            Some(
                ImageFilter::AlphaThreshold {
                    region: *region,
                    inner_min,
                    outer_max,
                    input: Box::new(self),
                    crop: crop_rect,
                },
            )
        } else {
            None
        }
    }

    /// Describes a filter that draws the given filters on top of each
    /// other, an absent entry standing for the source bitmap.
    pub fn merge(filters: Vec<Option<ImageFilter>>, crop_rect: Option<IRect>) -> (r: Option<
        ImageFilter,
    >)
        ensures
            r == Some(ImageFilter::Merge { inputs: filters, crop: crop_rect }),
    {
        Some(ImageFilter::Merge { inputs: filters, crop: crop_rect })
    }

    /// Describes a filter that fills its output with the paint.
    pub fn from_paint(paint: &Paint, crop_rect: Option<IRect>) -> (r: Option<ImageFilter>)
        ensures
            r == Some(ImageFilter::FromPaint { paint: *paint, crop: crop_rect }),
    {
        Some(ImageFilter::FromPaint { paint: *paint, crop: crop_rect })
    }
}

impl Image {
    /// The filter that draws this image, leaving the image usable.
    pub fn as_filter(&self) -> (r: Option<ImageFilter>)
        ensures
            r == (if self.wf() {
                Some(
                    ImageFilter::ImageSource {
                        image: *self,
                        src_rect: spec_image_bounds(*self),
                        dst_rect: spec_image_bounds(*self),
                        quality: FilterQuality::High,
                    },
                )
            } else {
                None::<ImageFilter>
            }),
    {
        let copy = Image { width: self.width, height: self.height };
        copy.into_filter()
    }

    /// The filter that draws this image.
    pub fn into_filter(self) -> (r: Option<ImageFilter>)
        ensures
            r == (if self.wf() {
                Some(
                    ImageFilter::ImageSource {
                        image: self,
                        src_rect: spec_image_bounds(self),
                        dst_rect: spec_image_bounds(self),
                        quality: FilterQuality::High,
                    },
                )
            } else {
                None::<ImageFilter>
            }),
    {
        ImageFilter::from_image(self)
    }

    /// The filter that maps a source rectangle of this image onto a
    /// destination rectangle, leaving the image usable.
    pub fn as_filter_rect(
        &self,
        src_rect: Rect,
        dst_rect: Rect,
        filter_quality: FilterQuality,
    ) -> (r: Option<ImageFilter>)
        ensures
            r == (if self.wf() && !src_rect.spec_is_empty() && !dst_rect.spec_is_empty() {
                Some(
                    ImageFilter::ImageSource {
                        image: *self,
                        src_rect,
                        dst_rect,
                        quality: filter_quality,
                    },
                )
            } else {
                None::<ImageFilter>
            }),
    {
        let copy = Image { width: self.width, height: self.height };
        copy.into_filter_rect(src_rect, dst_rect, filter_quality)
    }

    /// The filter that maps a source rectangle of this image onto a
    /// destination rectangle.
    pub fn into_filter_rect(
        self,
        src_rect: Rect,
        dst_rect: Rect,
        filter_quality: FilterQuality,
    ) -> (r: Option<ImageFilter>)
        ensures
            r == (if self.wf() && !src_rect.spec_is_empty() && !dst_rect.spec_is_empty() {
                Some(ImageFilter::ImageSource { image: self, src_rect, dst_rect, quality: filter_quality })
            } else {
                None::<ImageFilter>
            }),
    {
        ImageFilter::from_image_rect(self, src_rect, dst_rect, filter_quality)
    }
}

impl Paint {
    /// The filter that fills its output with this paint.
    pub fn as_image_filter(&self, crop_rect: Option<IRect>) -> (r: Option<ImageFilter>)
        ensures
            r == Some(ImageFilter::FromPaint { paint: *self, crop: crop_rect }),
    {
        ImageFilter::from_paint(self, crop_rect)
    }
}

} // verus!
