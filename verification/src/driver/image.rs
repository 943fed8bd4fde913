//! Images, what they are described by, and the views which are made of them.

use super::descriptor_set::UninitializedField;
use vstd::prelude::*;

verus! {

/// The usage bit of an image which is used as a color attachment.
pub const IMAGE_USAGE_COLOR_ATTACHMENT: u32 = 0x10;

/// The usage bit of an image which is used as a depth or stencil attachment.
pub const IMAGE_USAGE_DEPTH_STENCIL_ATTACHMENT: u32 = 0x20;

/// The creation flag of an image from which cube views can be made.
pub const IMAGE_CREATE_CUBE_COMPATIBLE: u32 = 0x10;

/// The code of the tiling which the device lays out as it likes best.
pub const IMAGE_TILING_OPTIMAL: i32 = 0;

/// The aspect bit of the color of an image.
pub const IMAGE_ASPECT_COLOR: u32 = 0x1;

/// In a range of mip levels: all levels from the base level on.
pub const REMAINING_MIP_LEVELS: u32 = 0xffff_ffff;

/// In a range of array layers: all layers from the base layer on.
pub const REMAINING_ARRAY_LAYERS: u32 = 0xffff_ffff;

/// Two unsigned numbers: the width and height of an image.
#[derive(Clone, Copy, Debug, PartialEq, Eq, Hash, Structural)]
pub struct Extent2 {
    pub x: u32,
    pub y: u32,
}

/// Three unsigned numbers: the width, height and depth of an image, or what these are
/// divided by.
#[derive(Clone, Copy, Debug, PartialEq, Eq, Hash, Structural)]
pub struct Extent3 {
    pub x: u32,
    pub y: u32,
    pub z: u32,
}

/// Adds two vectors with `glam`, component by component (`UVec3 + UVec3`). Each sum has to
/// fit into a `u32`: `glam` adds with `+`, which does not return otherwise.
#[verifier::external_body]
fn uvec3_add(a: Extent3, b: Extent3) -> (sum: Extent3)
    requires
        a.x + b.x <= u32::MAX,
        a.y + b.y <= u32::MAX,
        a.z + b.z <= u32::MAX,
    ensures
        sum.x == a.x + b.x,
        sum.y == a.y + b.y,
        sum.z == a.z + b.z,
{
    let sum = glam::UVec3::new(a.x, a.y, a.z) + glam::UVec3::new(b.x, b.y, b.z);
    Extent3 { x: sum.x, y: sum.y, z: sum.z }
}

/// Subtracts two vectors with `glam`, component by component (`UVec3 - UVec3`). No component
/// of `b` may be greater than that of `a`: `glam` subtracts with `-`, which does not return
/// otherwise.
#[verifier::external_body]
fn uvec3_sub(a: Extent3, b: Extent3) -> (difference: Extent3)
    requires
        b.x <= a.x,
        b.y <= a.y,
        b.z <= a.z,
    ensures
        difference.x == a.x - b.x,
        difference.y == a.y - b.y,
        difference.z == a.z - b.z,
{
    let difference = glam::UVec3::new(a.x, a.y, a.z) - glam::UVec3::new(b.x, b.y, b.z);
    Extent3 { x: difference.x, y: difference.y, z: difference.z }
}

/// Divides two vectors with `glam`, component by component (`UVec3 / UVec3`), rounding down.
/// No component of `b` may be zero: `glam` divides with `/`, which does not return otherwise.
#[verifier::external_body]
fn uvec3_div(a: Extent3, b: Extent3) -> (quotient: Extent3)
    requires
        b.x != 0,
        b.y != 0,
        b.z != 0,
    ensures
        quotient.x == a.x / b.x,
        quotient.y == a.y / b.y,
        quotient.z == a.z / b.z,
{
    let quotient = glam::UVec3::new(a.x, a.y, a.z) / glam::UVec3::new(b.x, b.y, b.z);
    Extent3 { x: quotient.x, y: quotient.y, z: quotient.z }
}

/// The kinds of images, by the shape of the views which are made of them.
#[derive(Clone, Copy, Debug, Hash, PartialEq, Eq, Structural)]
pub enum ImageType {
    Texture1D,
    TextureArray1D,
    Texture2D,
    TextureArray2D,
    Texture3D,
    Cube,
    CubeArray,
}

impl ImageType {
    /// The code of the view type of an image of this kind.
    pub open spec fn view_type(self) -> i32 {
        match self {
            ImageType::Texture1D => 0,
            ImageType::Texture2D => 1,
            ImageType::Texture3D => 2,
            ImageType::Cube => 3,
            ImageType::TextureArray1D => 4,
            ImageType::TextureArray2D => 5,
            ImageType::CubeArray => 6,
        }
    }

    /// The code of the view type of an image of this kind.
    pub fn into_vk(self) -> (code: i32)
        ensures
            code == self.view_type(),
    {
        match self {
            ImageType::Cube => 3,
            ImageType::CubeArray => 6,
            ImageType::Texture1D => 0,
            ImageType::Texture2D => 1,
            ImageType::Texture3D => 2,
            ImageType::TextureArray1D => 4,
            ImageType::TextureArray2D => 5,
        }
    }
}

/// The numbers of samples which an image can have for each of its texels.
#[derive(Clone, Copy, Debug, Eq, Hash, PartialEq, Structural)]
pub enum SampleCount {
    X1,
    X2,
    X4,
    X8,
    X16,
    X32,
    X64,
}

impl SampleCount {
    /// The number of samples.
    pub open spec fn samples(self) -> u32 {
        match self {
            SampleCount::X1 => 1,
            SampleCount::X2 => 2,
            SampleCount::X4 => 4,
            SampleCount::X8 => 8,
            SampleCount::X16 => 16,
            SampleCount::X32 => 32,
            SampleCount::X64 => 64,
        }
    }

    /// The next lower count: half the samples. One sample has none below it.
    pub open spec fn lower(self) -> Option<SampleCount> {
        match self {
            SampleCount::X1 => None,
            SampleCount::X2 => Some(SampleCount::X1),
            SampleCount::X4 => Some(SampleCount::X2),
            SampleCount::X8 => Some(SampleCount::X4),
            SampleCount::X16 => Some(SampleCount::X8),
            SampleCount::X32 => Some(SampleCount::X16),
            SampleCount::X64 => Some(SampleCount::X32),
        }
    }

    /// Whether the mask `counts` of sample counts holds this one.
    pub open spec fn is_in(self, counts: u32) -> bool {
        counts & self.samples() == self.samples()
    }

    /// The counts which can stand in for this one where the device does not support it.
    pub fn compatible_items(self) -> (items: SampleCountCompatibilityIter)
        ensures
            items.0 == self,
    {
        SampleCountCompatibilityIter(self)
    }

    /// The flag bit of this count: the number of samples itself.
    pub fn into_vk(self) -> (bits: u32)
        ensures
            bits == self.samples(),
    {
        match self {
            SampleCount::X1 => 1,
            SampleCount::X2 => 2,
            SampleCount::X4 => 4,
            SampleCount::X8 => 8,
            SampleCount::X16 => 16,
            SampleCount::X32 => 32,
            SampleCount::X64 => 64,
        }
    }

    /// Whether the mask `counts` of sample counts holds this one.
    pub fn supported_by(self, counts: u32) -> (supported: bool)
        ensures
            supported == self.is_in(counts),
    {
        let bits = self.into_vk();
        counts & bits == bits
    }

    /// The count to create an image with, where `wanted` says whether the limit `counts`
    /// of the device applies to the image: this count where the limit does not apply or
    /// allows it; else the next lower count where the limit allows that; else none.
    pub open spec fn fallback(self, wanted: bool, counts: u32) -> Option<SampleCount> {
        if !wanted || self.is_in(counts) {
            Some(self)
        } else if self.lower() is Some && self.lower()->0.is_in(counts) {
            self.lower()
        } else {
            None
        }
    }

    /// Picks the count to create an image with; see [`SampleCount::fallback`].
    pub fn supported_or_lower(self, wanted: bool, counts: u32) -> (count: Option<SampleCount>)
        ensures
            count == self.fallback(wanted, counts),
    {
        if !wanted || self.supported_by(counts) {
            return Some(self);
        }
        let mut items = self.compatible_items();
        match items.next() {
            Some(lower) => {
                if lower.supported_by(counts) {
                    Some(lower)
                } else {
                    None
                }
            },
            None => None,
        }
    }
}

impl Default for SampleCount {
    fn default() -> (count: SampleCount)
        ensures
            count == SampleCount::X1,
    {
        SampleCount::X1
    }
}

/// Hands out the count which can stand in for a sample count: at every call the next lower
/// count of the count it was made for, and nothing for one sample.
pub struct SampleCountCompatibilityIter(pub SampleCount);

impl SampleCountCompatibilityIter {
    /// The next lower count of the count which this was made for. That count stays as it
    /// is, so that every call hands out the same.
    pub fn next(&mut self) -> (item: Option<SampleCount>)
        ensures
            item == old(self).0.lower(),
            final(self).0 == old(self).0,
    {
        Some(
            match self.0 {
                SampleCount::X1 => {
                    return None;
                },
                SampleCount::X2 => SampleCount::X1,
                SampleCount::X4 => SampleCount::X2,
                SampleCount::X8 => SampleCount::X4,
                SampleCount::X16 => SampleCount::X8,
                SampleCount::X32 => SampleCount::X16,
                SampleCount::X64 => SampleCount::X32,
            },
        )
    }
}

/// The number of mip levels of a full chain for an image which is `extent` texels long: the
/// number of times it can be halved until nothing is left.
pub open spec fn mip_levels(extent: nat) -> nat
    decreases extent,
{
    if extent == 0 {
        0
    } else {
        1 + mip_levels(extent / 2)
    }
}

proof fn lemma_mip_levels(extent: u32, bits: u32)
    requires
        bits <= 32,
        extent >> bits == 0,
        bits > 0 ==> (extent >> ((bits - 1) as u32)) & 1u32 != 0,
    ensures
        mip_levels(extent as nat) == bits,
    decreases bits,
{
    if bits == 0 {
        assert(extent >> 0u32 == extent) by (bit_vector);
    } else {
        let less: u32 = (bits - 1) as u32;
        assert(extent != 0) by (bit_vector)
            requires
                (extent >> less) & 1u32 != 0,
        ;
        let half: u32 = extent / 2;
        assert(half >> less == 0) by (bit_vector)
            requires
                less < 32,
                bits == less + 1,
                extent >> bits == 0,
                half == extent / 2,
        ;
        if less > 0 {
            let lesser: u32 = (less - 1) as u32;
            assert((half >> lesser) & 1u32 != 0) by (bit_vector)
                requires
                    less == lesser + 1,
                    less < 32,
                    (extent >> less) & 1u32 != 0,
                    half == extent / 2,
            ;
        }
        lemma_mip_levels(half, less);
    }
}

/// What an image is created with.
#[derive(Clone, Copy, Debug, Hash, PartialEq, Eq, Structural)]
pub struct ImageInfo {
    pub ty: ImageType,
    /// The usage flags.
    pub usage: u32,
    /// The creation flags.
    pub flags: u32,
    /// The code of the format.
    pub fmt: i32,
    pub extent: Extent3,
    /// The code of the tiling.
    pub tiling: i32,
    pub mip_level_count: u32,
    pub array_elements: u32,
    pub sample_count: SampleCount,
}

/// What the device is asked to create an image with.
#[derive(Clone, Copy, Debug, Hash, PartialEq, Eq, Structural)]
pub struct ImageCreateInfo {
    pub flags: u32,
    /// The code of the dimensionality: 0, 1 or 2 for one, two or three dimensions.
    pub image_type: i32,
    pub format: i32,
    pub extent: Extent3,
    pub mip_levels: u32,
    pub array_layers: u32,
    pub samples: u32,
    pub tiling: i32,
    pub usage: u32,
    /// The code of the sharing mode: 0, for exclusive use by one queue family.
    pub sharing_mode: i32,
    /// The code of the initial layout: 0, for an undefined layout.
    pub initial_layout: i32,
}

impl ImageInfo {
    fn new(fmt: i32, ty: ImageType, extent: Extent3) -> (builder: ImageInfoBuilder)
        ensures
            builder == (ImageInfoBuilder {
                ty: Some(ty),
                fmt: Some(fmt),
                extent: Some(extent),
                ..ImageInfoBuilder::empty()
            }),
    {
        ImageInfoBuilder {
            ty: Some(ty),
            usage: None,
            flags: None,
            fmt: Some(fmt),
            extent: Some(extent),
            tiling: None,
            mip_level_count: None,
            array_elements: None,
            sample_count: None,
        }
    }

    /// Starts to describe a one-dimensional image of the given length.
    pub fn new_1d(fmt: i32, extent: u32) -> (builder: ImageInfoBuilder)
        ensures
            builder == (ImageInfoBuilder {
                ty: Some(ImageType::Texture1D),
                fmt: Some(fmt),
                extent: Some(Extent3 { x: extent, y: 1, z: 1 }),
                ..ImageInfoBuilder::empty()
            }),
    {
        Self::new(fmt, ImageType::Texture1D, Extent3 { x: extent, y: 1, z: 1 })
    }

    /// Starts to describe a two-dimensional image of the given width and height.
    pub fn new_2d(fmt: i32, extent: Extent2) -> (builder: ImageInfoBuilder)
        ensures
            builder == (ImageInfoBuilder {
                ty: Some(ImageType::Texture2D),
                fmt: Some(fmt),
                extent: Some(Extent3 { x: extent.x, y: extent.y, z: 1 }),
                ..ImageInfoBuilder::empty()
            }),
    {
        Self::new(fmt, ImageType::Texture2D, Extent3 { x: extent.x, y: extent.y, z: 1 })
    }

    /// Starts to describe a three-dimensional image of the given width, height and depth.
    pub fn new_3d(fmt: i32, extent: Extent3) -> (builder: ImageInfoBuilder)
        ensures
            builder == (ImageInfoBuilder {
                ty: Some(ImageType::Texture3D),
                fmt: Some(fmt),
                extent: Some(extent),
                ..ImageInfoBuilder::empty()
            }),
    {
        Self::new(fmt, ImageType::Texture3D, extent)
    }

    /// Starts to describe a cube of six square faces of the given width, from which cube
    /// views can be made.
    pub fn new_cube(fmt: i32, width: u32) -> (builder: ImageInfoBuilder)
        ensures
            builder == (ImageInfoBuilder {
                ty: Some(ImageType::Cube),
                fmt: Some(fmt),
                extent: Some(Extent3 { x: width, y: width, z: 1 }),
                array_elements: Some(6),
                flags: Some(IMAGE_CREATE_CUBE_COMPATIBLE),
                ..ImageInfoBuilder::empty()
            }),
    {
        ImageInfoBuilder::default().fmt(fmt).ty(ImageType::Cube).extent(
            Extent3 { x: width, y: width, z: 1 },
        ).array_elements(6).flags(IMAGE_CREATE_CUBE_COMPATIBLE)
    }

    /// The number of array layers which an image of this description is created with: the
    /// number of its elements for an array, six for a cube, six for each element of an array
    /// of cubes, and one otherwise.
    pub open spec fn array_layers(self) -> int {
        match self.ty {
            ImageType::TextureArray1D | ImageType::TextureArray2D => self.array_elements as int,
            ImageType::Cube => 6,
            ImageType::CubeArray => 6 * self.array_elements,
            _ => 1,
        }
    }

    /// What the device is asked to create: an image of as many dimensions as the kind has,
    /// where a dimension which the kind does not have is one texel long, with the layers of
    /// [`ImageInfo::array_layers`], for exclusive use, in an undefined layout.
    pub open spec fn create_info(self) -> ImageCreateInfo {
        ImageCreateInfo {
            flags: self.flags,
            image_type: match self.ty {
                ImageType::Texture1D | ImageType::TextureArray1D => 0,
                ImageType::Texture3D => 2,
                _ => 1,
            },
            format: self.fmt,
            extent: match self.ty {
                ImageType::Texture1D | ImageType::TextureArray1D => Extent3 {
                    x: self.extent.x,
                    y: 1,
                    z: 1,
                },
                ImageType::Texture3D => self.extent,
                _ => Extent3 { x: self.extent.x, y: self.extent.y, z: 1 },
            },
            mip_levels: self.mip_level_count,
            array_layers: self.array_layers() as u32,
            samples: self.sample_count.samples(),
            tiling: self.tiling,
            usage: self.usage,
            sharing_mode: 0,
            initial_layout: 0,
        }
    }

    /// What the device is asked to create for this description; see
    /// [`ImageInfo::create_info`]. The number of array layers has to fit into a `u32`.
    pub fn image_create_info(self) -> (info: ImageCreateInfo)
        requires
            self.array_layers() <= u32::MAX,
        ensures
            info == self.create_info(),
    {
        let (ty, extent, array_layers): (i32, Extent3, u32) = match self.ty {
            ImageType::Texture1D => (0, Extent3 { x: self.extent.x, y: 1, z: 1 }, 1),
            ImageType::TextureArray1D => (
                0,
                Extent3 { x: self.extent.x, y: 1, z: 1 },
                self.array_elements,
            ),
            ImageType::Texture2D => (1, Extent3 { x: self.extent.x, y: self.extent.y, z: 1 }, 1),
            ImageType::TextureArray2D => (
                1,
                Extent3 { x: self.extent.x, y: self.extent.y, z: 1 },
                self.array_elements,
            ),
            ImageType::Texture3D => (
                2,
                Extent3 { x: self.extent.x, y: self.extent.y, z: self.extent.z },
                1,
            ),
            ImageType::Cube => (1, Extent3 { x: self.extent.x, y: self.extent.y, z: 1 }, 6),
            ImageType::CubeArray => (
                1,
                Extent3 { x: self.extent.x, y: self.extent.y, z: 1 },
                6 * self.array_elements,
            ),
        };
        ImageCreateInfo {
            flags: self.flags,
            image_type: ty,
            format: self.fmt,
            extent,
            mip_levels: self.mip_level_count,
            array_layers,
            samples: self.sample_count.into_vk(),
            tiling: self.tiling,
            usage: self.usage,
            sharing_mode: 0,
            initial_layout: 0,
        }
    }

    /// Whether the number of array layers fits into a `u32`, so that
    /// [`ImageInfo::image_create_info`] can be called.
    pub fn can_create(self) -> (fits: bool)
        ensures
            fits == (self.array_layers() <= u32::MAX),
    {
        match self.ty {
            ImageType::CubeArray => self.array_elements <= u32::MAX / 6,
            _ => true,
        }
    }

    /// The description which an image is created with on a device whose framebuffers
    /// support the sample counts `color_counts` for color attachments and `depth_counts`
    /// for depth and stencil attachments.
    ///
    /// An image which is used as a color attachment gets the next lower sample count where
    /// the device does not support the one it asks for; then the same is done for its use as
    /// a depth or stencil attachment. There is none where the usage is empty, or where the
    /// next lower count is not supported either.
    pub open spec fn supported(self, color_counts: u32, depth_counts: u32) -> Option<ImageInfo> {
        if self.usage == 0 {
            None
        } else {
            match self.sample_count.fallback(
                self.usage & IMAGE_USAGE_COLOR_ATTACHMENT == IMAGE_USAGE_COLOR_ATTACHMENT,
                color_counts,
            ) {
                None => None,
                Some(count) => match count.fallback(
                    self.usage & IMAGE_USAGE_DEPTH_STENCIL_ATTACHMENT
                        == IMAGE_USAGE_DEPTH_STENCIL_ATTACHMENT,
                    depth_counts,
                ) {
                    None => None,
                    Some(count) => Some(ImageInfo { sample_count: count, ..self }),
                },
            }
        }
    }

    /// Fits the sample count to what the device supports; see [`ImageInfo::supported`].
    pub fn with_supported_sample_count(self, color_counts: u32, depth_counts: u32) -> (info:
        Option<ImageInfo>)
        ensures
            info == self.supported(color_counts, depth_counts),
    {
        if self.usage == 0 {
            return None;
        }
        let color = self.usage & IMAGE_USAGE_COLOR_ATTACHMENT == IMAGE_USAGE_COLOR_ATTACHMENT;
        let count = match self.sample_count.supported_or_lower(color, color_counts) {
            Some(count) => count,
            None => {
                return None;
            },
        };
        let depth = self.usage & IMAGE_USAGE_DEPTH_STENCIL_ATTACHMENT
            == IMAGE_USAGE_DEPTH_STENCIL_ATTACHMENT;
        match count.supported_or_lower(depth, depth_counts) {
            Some(count) => Some(ImageInfo { sample_count: count, ..self }),
            None => None,
        }
    }

    /// The width and height.
    pub fn extent_2d(self) -> (extent: Extent2)
        ensures
            extent.x == self.extent.x,
            extent.y == self.extent.y,
    {
        Extent2 { x: self.extent.x, y: self.extent.y }
    }

    /// This description with another format.
    pub fn fmt(self, fmt: i32) -> (info: ImageInfo)
        ensures
            info == (ImageInfo { fmt, ..self }),
    {
        let mut info = self;
        info.fmt = fmt;
        info
    }

    /// A builder which holds every field of this description but the sample count.
    pub fn into_builder(self) -> (builder: ImageInfoBuilder)
        ensures
            builder == (ImageInfoBuilder {
                array_elements: Some(self.array_elements),
                extent: Some(self.extent),
                flags: Some(self.flags),
                fmt: Some(self.fmt),
                mip_level_count: Some(self.mip_level_count),
                sample_count: None,
                tiling: Some(self.tiling),
                ty: Some(self.ty),
                usage: Some(self.usage),
            }),
    {
        ImageInfoBuilder {
            array_elements: Some(self.array_elements),
            extent: Some(self.extent),
            flags: Some(self.flags),
            fmt: Some(self.fmt),
            mip_level_count: Some(self.mip_level_count),
            sample_count: None,
            tiling: Some(self.tiling),
            ty: Some(self.ty),
            usage: Some(self.usage),
        }
    }
}

/// Builds an [`ImageInfo`] field by field.
#[derive(Clone, Copy, Debug, PartialEq, Eq, Structural)]
pub struct ImageInfoBuilder {
    pub ty: Option<ImageType>,
    pub usage: Option<u32>,
    pub flags: Option<u32>,
    pub fmt: Option<i32>,
    pub extent: Option<Extent3>,
    pub tiling: Option<i32>,
    pub mip_level_count: Option<u32>,
    pub array_elements: Option<u32>,
    pub sample_count: Option<SampleCount>,
}

impl Default for ImageInfoBuilder {
    fn default() -> (builder: ImageInfoBuilder)
        ensures
            builder == ImageInfoBuilder::empty(),
    {
        ImageInfoBuilder {
            ty: None,
            usage: None,
            flags: None,
            fmt: None,
            extent: None,
            tiling: None,
            mip_level_count: None,
            array_elements: None,
            sample_count: None,
        }
    }
}

impl ImageInfoBuilder {
    /// The builder without any field.
    pub open spec fn empty() -> ImageInfoBuilder {
        ImageInfoBuilder {
            ty: None,
            usage: None,
            flags: None,
            fmt: None,
            extent: None,
            tiling: None,
            mip_level_count: None,
            array_elements: None,
            sample_count: None,
        }
    }

    /// Sets the kind of image.
    pub fn ty(self, value: ImageType) -> (builder: Self)
        ensures
            builder == (ImageInfoBuilder { ty: Some(value), ..self }),
    {
        let mut builder = self;
        builder.ty = Some(value);
        builder
    }

    /// Sets the usage flags.
    pub fn usage(self, value: u32) -> (builder: Self)
        ensures
            builder == (ImageInfoBuilder { usage: Some(value), ..self }),
    {
        let mut builder = self;
        builder.usage = Some(value);
        builder
    }

    /// Sets the creation flags.
    pub fn flags(self, value: u32) -> (builder: Self)
        ensures
            builder == (ImageInfoBuilder { flags: Some(value), ..self }),
    {
        let mut builder = self;
        builder.flags = Some(value);
        builder
    }

    /// Sets the format.
    pub fn fmt(self, value: i32) -> (builder: Self)
        ensures
            builder == (ImageInfoBuilder { fmt: Some(value), ..self }),
    {
        let mut builder = self;
        builder.fmt = Some(value);
        builder
    }

    /// Sets the width, height and depth.
    pub fn extent(self, value: Extent3) -> (builder: Self)
        ensures
            builder == (ImageInfoBuilder { extent: Some(value), ..self }),
    {
        let mut builder = self;
        builder.extent = Some(value);
        builder
    }

    /// Sets the tiling.
    pub fn tiling(self, value: i32) -> (builder: Self)
        ensures
            builder == (ImageInfoBuilder { tiling: Some(value), ..self }),
    {
        let mut builder = self;
        builder.tiling = Some(value);
        builder
    }

    /// Sets the number of mip levels.
    pub fn mip_level_count(self, value: u32) -> (builder: Self)
        ensures
            builder == (ImageInfoBuilder { mip_level_count: Some(value), ..self }),
    {
        let mut builder = self;
        builder.mip_level_count = Some(value);
        builder
    }

    /// Sets the number of array elements.
    pub fn array_elements(self, value: u32) -> (builder: Self)
        ensures
            builder == (ImageInfoBuilder { array_elements: Some(value), ..self }),
    {
        let mut builder = self;
        builder.array_elements = Some(value);
        builder
    }

    /// Sets the sample count.
    pub fn sample_count(self, value: SampleCount) -> (builder: Self)
        ensures
            builder == (ImageInfoBuilder { sample_count: Some(value), ..self }),
    {
        let mut builder = self;
        builder.sample_count = Some(value);
        builder
    }

    /// The description which the builder stands for once the kind, the format and the extent
    /// are set: a field which was not set is empty for the usage and the flags, optimal for
    /// the tiling, one for the mip levels and the array elements, and one sample.
    pub open spec fn built(self) -> ImageInfo {
        ImageInfo {
            ty: self.ty->0,
            usage: if self.usage is Some {
                self.usage->0
            } else {
                0
            },
            flags: if self.flags is Some {
                self.flags->0
            } else {
                0
            },
            fmt: self.fmt->0,
            extent: self.extent->0,
            tiling: if self.tiling is Some {
                self.tiling->0
            } else {
                IMAGE_TILING_OPTIMAL
            },
            mip_level_count: if self.mip_level_count is Some {
                self.mip_level_count->0
            } else {
                1
            },
            array_elements: if self.array_elements is Some {
                self.array_elements->0
            } else {
                1
            },
            sample_count: if self.sample_count is Some {
                self.sample_count->0
            } else {
                SampleCount::X1
            },
        }
    }

    /// Builds the description, or names the first of the kind, the format and the extent
    /// which was not set.
    pub fn build(self) -> (info: Result<ImageInfo, UninitializedField>)
        ensures
            info is Ok <==> self.ty is Some && self.fmt is Some && self.extent is Some,
            info is Ok ==> info->Ok_0 == self.built(),
            info is Err ==> info->Err_0.name@ == (if self.ty is None {
                "ty"@
            } else if self.fmt is None {
                "fmt"@
            } else {
                "extent"@
            }),
    {
        let ty = match self.ty {
            Some(ty) => ty,
            None => {
                return Err(UninitializedField { name: "ty" });
            },
        };
        let fmt = match self.fmt {
            Some(fmt) => fmt,
            None => {
                return Err(UninitializedField { name: "fmt" });
            },
        };
        let extent = match self.extent {
            Some(extent) => extent,
            None => {
                return Err(UninitializedField { name: "extent" });
            },
        };
        Ok(
            ImageInfo {
                ty,
                usage: match self.usage {
                    Some(usage) => usage,
                    None => 0,
                },
                flags: match self.flags {
                    Some(flags) => flags,
                    None => 0,
                },
                fmt,
                extent,
                tiling: match self.tiling {
                    Some(tiling) => tiling,
                    None => IMAGE_TILING_OPTIMAL,
                },
                mip_level_count: match self.mip_level_count {
                    Some(count) => count,
                    None => 1,
                },
                array_elements: match self.array_elements {
                    Some(count) => count,
                    None => 1,
                },
                sample_count: match self.sample_count {
                    Some(count) => count,
                    None => SampleCount::X1,
                },
            },
        )
    }

    /// Asks for the full chain of mip levels: as many as the longest of width, height and
    /// depth can be halved until nothing is left. The extent has to be set.
    pub fn all_mip_levels(self) -> (builder: Self)
        requires
            self.extent is Some,
        ensures
            builder == (ImageInfoBuilder {
                mip_level_count: Some(
                    vstd::math::max(
                        mip_levels(self.extent->0.x as nat) as int,
                        vstd::math::max(
                            mip_levels(self.extent->0.y as nat) as int,
                            mip_levels(self.extent->0.z as nat) as int,
                        ),
                    ) as u32,
                ),
                ..self
            }),
    {
        let extent = match self.extent {
            Some(extent) => extent,
            None => Extent3 { x: 0, y: 0, z: 0 },
        };
        let x = Self::mip_count_1d(extent.x);
        let y = Self::mip_count_1d(extent.y);
        let z = Self::mip_count_1d(extent.z);
        let yz = if y >= z {
            y
        } else {
            z
        };
        let count = if x >= yz {
            x
        } else {
            yz
        };
        self.mip_level_count(count)
    }

    /// Divides the extent by `denom`, component by component, rounding down. The extent has
    /// to be set, and no component of `denom` may be zero.
    pub fn extent_div(self, denom: Extent3) -> (builder: Self)
        requires
            self.extent is Some,
            denom.x != 0,
            denom.y != 0,
            denom.z != 0,
        ensures
            builder == (ImageInfoBuilder {
                extent: Some(
                    Extent3 {
                        x: self.extent->0.x / denom.x,
                        y: self.extent->0.y / denom.y,
                        z: self.extent->0.z / denom.z,
                    },
                ),
                ..self
            }),
    {
        let extent = match self.extent {
            Some(extent) => extent,
            None => Extent3 { x: 0, y: 0, z: 0 },
        };
        let mut builder = self;
        builder.extent = Some(uvec3_div(extent, denom));
        builder
    }

    /// Whether [`ImageInfoBuilder::extent_div_up`] can divide the extent by `denom`: the
    /// extent is set, no component of `denom` is zero, and no sum of a component of the
    /// extent and that of `denom` leaves the range of a `u32`.
    pub open spec fn divides_up(self, denom: Extent3) -> bool {
        &&& self.extent is Some
        &&& denom.x != 0 && denom.y != 0 && denom.z != 0
        &&& self.extent->0.x + denom.x <= u32::MAX
        &&& self.extent->0.y + denom.y <= u32::MAX
        &&& self.extent->0.z + denom.z <= u32::MAX
    }

    /// Whether [`ImageInfoBuilder::extent_div_up`] can divide the extent by `denom`.
    pub fn can_div_up(self, denom: Extent3) -> (can: bool)
        ensures
            can == self.divides_up(denom),
    {
        match self.extent {
            Some(extent) => denom.x != 0 && denom.y != 0 && denom.z != 0 && extent.x <= u32::MAX
                - denom.x && extent.y <= u32::MAX - denom.y && extent.z <= u32::MAX - denom.z,
            None => false,
        }
    }

    /// Divides the extent by `denom`, component by component, rounding up.
    pub fn extent_div_up(self, denom: Extent3) -> (builder: Self)
        requires
            self.divides_up(denom),
        ensures
            builder == (ImageInfoBuilder {
                extent: Some(
                    Extent3 {
                        x: ((self.extent->0.x + denom.x - 1) / denom.x as int) as u32,
                        y: ((self.extent->0.y + denom.y - 1) / denom.y as int) as u32,
                        z: ((self.extent->0.z + denom.z - 1) / denom.z as int) as u32,
                    },
                ),
                ..self
            }),
    {
        let extent = match self.extent {
            Some(extent) => extent,
            None => Extent3 { x: 0, y: 0, z: 0 },
        };
        let sum = uvec3_add(extent, denom);
        let less = uvec3_sub(sum, Extent3 { x: 1, y: 1, z: 1 });
        let mut builder = self;
        builder.extent = Some(uvec3_div(less, denom));
        builder
    }

    /// Halves the extent, rounding up. The extent has to be set, and none of its components
    /// may be one of the two greatest values of a `u32`.
    pub fn half_res(self) -> (builder: Self)
        requires
            self.divides_up(Extent3 { x: 2, y: 2, z: 2 }),
        ensures
            builder == (ImageInfoBuilder {
                extent: Some(
                    Extent3 {
                        x: ((self.extent->0.x + 1) / 2) as u32,
                        y: ((self.extent->0.y + 1) / 2) as u32,
                        z: ((self.extent->0.z + 1) / 2) as u32,
                    },
                ),
                ..self
            }),
    {
        self.extent_div_up(Extent3 { x: 2, y: 2, z: 2 })
    }

    /// The number of mip levels of a full chain for an image which is `extent` texels long.
    pub fn mip_count_1d(extent: u32) -> (count: u32)
        ensures
            count == mip_levels(extent as nat),
            count <= 32,
    {
        let zeros = extent.leading_zeros();
        proof {
            vstd::std_specs::bits::axiom_u32_leading_zeros(extent);
            let bits: u32 = (32 - zeros) as u32;
            lemma_mip_levels(extent, bits);
        }
        32 - zeros
    }
}

/// A range of mip levels and array layers of an image, in the aspects `aspect_mask`. A count
/// of `None` stands for all that remain from the base on.
#[derive(Clone, Copy, Debug, Eq, PartialEq, Structural)]
pub struct ImageSubresource {
    pub array_layer_count: Option<u32>,
    pub aspect_mask: u32,
    pub base_array_layer: u32,
    pub base_mip_level: u32,
    pub mip_level_count: Option<u32>,
}

/// A range of mip levels and array layers as the device takes it.
#[derive(Clone, Copy, Debug, Eq, PartialEq, Hash, Structural)]
pub struct ImageSubresourceRange {
    pub aspect_mask: u32,
    pub base_mip_level: u32,
    pub level_count: u32,
    pub base_array_layer: u32,
    pub layer_count: u32,
}

impl ImageSubresource {
    /// The range as the device takes it: a count which is not given is the value which
    /// stands for all that remain.
    pub open spec fn range(self) -> ImageSubresourceRange {
        ImageSubresourceRange {
            aspect_mask: self.aspect_mask,
            base_mip_level: self.base_mip_level,
            base_array_layer: self.base_array_layer,
            layer_count: match self.array_layer_count {
                Some(count) => count,
                None => REMAINING_ARRAY_LAYERS,
            },
            level_count: match self.mip_level_count {
                Some(count) => count,
                None => REMAINING_MIP_LEVELS,
            },
        }
    }

    /// The range as the device takes it.
    pub fn into_vk(self) -> (range: ImageSubresourceRange)
        ensures
            range == self.range(),
    {
        ImageSubresourceRange {
            aspect_mask: self.aspect_mask,
            base_mip_level: self.base_mip_level,
            base_array_layer: self.base_array_layer,
            layer_count: match self.array_layer_count {
                Some(count) => count,
                None => REMAINING_ARRAY_LAYERS,
            },
            level_count: match self.mip_level_count {
                Some(count) => count,
                None => REMAINING_MIP_LEVELS,
            },
        }
    }

    /// The whole of an image with the aspects `aspect_mask`: every mip level and every array
    /// layer.
    pub fn whole(aspect_mask: u32) -> (subresource: ImageSubresource)
        ensures
            subresource == (ImageSubresource {
                aspect_mask,
                base_mip_level: 0,
                base_array_layer: 0,
                array_layer_count: None,
                mip_level_count: None,
            }),
    {
        ImageSubresource {
            aspect_mask,
            base_mip_level: 0,
            base_array_layer: 0,
            array_layer_count: None,
            mip_level_count: None,
        }
    }

    /// The number of array layers which a view of the kind `ty` covers: six for a cube or an
    /// array of cubes, one otherwise.
    pub open spec fn view_layers(ty: ImageType) -> u32 {
        match ty {
            ImageType::Cube | ImageType::CubeArray => 6,
            _ => 1,
        }
    }

    /// What a view covers of its image: its aspects, from its base level and layer on, the
    /// mip levels of the view, and the layers of [`ImageSubresource::view_layers`].
    pub fn from_view_info(info: ImageViewInfo) -> (subresource: ImageSubresource)
        ensures
            subresource == (ImageSubresource {
                aspect_mask: info.aspect_mask,
                base_mip_level: info.base_mip_level,
                base_array_layer: info.base_array_layer,
                array_layer_count: Some(Self::view_layers(info.ty)),
                mip_level_count: info.mip_level_count,
            }),
    {
        ImageSubresource {
            aspect_mask: info.aspect_mask,
            base_mip_level: info.base_mip_level,
            base_array_layer: info.base_array_layer,
            array_layer_count: Some(
                match info.ty {
                    ImageType::Texture1D | ImageType::Texture2D | ImageType::Texture3D => 1,
                    ImageType::Cube | ImageType::CubeArray => 6,
                    ImageType::TextureArray1D | ImageType::TextureArray2D => 1,
                },
            ),
            mip_level_count: info.mip_level_count,
        }
    }
}

impl Default for ImageSubresource {
    fn default() -> (subresource: ImageSubresource)
        ensures
            subresource == (ImageSubresource {
                aspect_mask: IMAGE_ASPECT_COLOR,
                base_mip_level: 0,
                base_array_layer: 0,
                array_layer_count: None,
                mip_level_count: None,
            }),
    {
        ImageSubresource::whole(IMAGE_ASPECT_COLOR)
    }
}

/// What a view of an image is created with, and what the views of an image are keyed by.
#[derive(Clone, Copy, Debug, Eq, Hash, PartialEq, Structural)]
pub struct ImageViewInfo {
    pub array_layer_count: Option<u32>,
    pub aspect_mask: u32,
    pub base_array_layer: u32,
    pub base_mip_level: u32,
    /// The code of the format.
    pub fmt: i32,
    pub mip_level_count: Option<u32>,
    pub ty: ImageType,
}

impl ImageViewInfo {
    /// Starts to describe a view.
    pub fn new() -> (builder: ImageViewInfoBuilder)
        ensures
            builder == ImageViewInfoBuilder::empty(),
    {
        ImageViewInfoBuilder::default()
    }

    /// The view of a whole image in the aspects `aspect_mask`: all its mip levels and array
    /// elements, in its format and of its kind.
    pub fn from_image_info(info: ImageInfo, aspect_mask: u32) -> (view: ImageViewInfo)
        ensures
            view == (ImageViewInfo {
                array_layer_count: Some(info.array_elements),
                aspect_mask,
                base_array_layer: 0,
                base_mip_level: 0,
                fmt: info.fmt,
                mip_level_count: Some(info.mip_level_count),
                ty: info.ty,
            }),
    {
        ImageViewInfo {
            array_layer_count: Some(info.array_elements),
            aspect_mask,
            base_array_layer: 0,
            base_mip_level: 0,
            fmt: info.fmt,
            mip_level_count: Some(info.mip_level_count),
            ty: info.ty,
        }
    }

    /// The range of the image which the device is asked to make the view of: a count which
    /// is not given is the value which stands for all that remain.
    pub fn subresource_range(self) -> (range: ImageSubresourceRange)
        ensures
            range == (ImageSubresource {
                array_layer_count: self.array_layer_count,
                aspect_mask: self.aspect_mask,
                base_array_layer: self.base_array_layer,
                base_mip_level: self.base_mip_level,
                mip_level_count: self.mip_level_count,
            }).range(),
    {
        ImageSubresourceRange {
            aspect_mask: self.aspect_mask,
            base_array_layer: self.base_array_layer,
            base_mip_level: self.base_mip_level,
            level_count: match self.mip_level_count {
                Some(count) => count,
                None => REMAINING_MIP_LEVELS,
            },
            layer_count: match self.array_layer_count {
                Some(count) => count,
                None => REMAINING_ARRAY_LAYERS,
            },
        }
    }
}

/// Builds an [`ImageViewInfo`] field by field. Every field has to be set; the two counts
/// are set to `None` for all that remain.
#[derive(Clone, Copy, Debug, PartialEq, Eq, Structural)]
pub struct ImageViewInfoBuilder {
    pub array_layer_count: Option<Option<u32>>,
    pub aspect_mask: Option<u32>,
    pub base_array_layer: Option<u32>,
    pub base_mip_level: Option<u32>,
    pub fmt: Option<i32>,
    pub mip_level_count: Option<Option<u32>>,
    pub ty: Option<ImageType>,
}

impl Default for ImageViewInfoBuilder {
    fn default() -> (builder: ImageViewInfoBuilder)
        ensures
            builder == ImageViewInfoBuilder::empty(),
    {
        ImageViewInfoBuilder {
            array_layer_count: None,
            aspect_mask: None,
            base_array_layer: None,
            base_mip_level: None,
            fmt: None,
            mip_level_count: None,
            ty: None,
        }
    }
}

impl ImageViewInfoBuilder {
    /// The builder without any field.
    pub open spec fn empty() -> ImageViewInfoBuilder {
        ImageViewInfoBuilder {
            array_layer_count: None,
            aspect_mask: None,
            base_array_layer: None,
            base_mip_level: None,
            fmt: None,
            mip_level_count: None,
            ty: None,
        }
    }

    /// Sets the number of array layers.
    pub fn array_layer_count(self, value: Option<u32>) -> (builder: Self)
        ensures
            builder == (ImageViewInfoBuilder { array_layer_count: Some(value), ..self }),
    {
        let mut builder = self;
        builder.array_layer_count = Some(value);
        builder
    }

    /// Sets the aspects.
    pub fn aspect_mask(self, value: u32) -> (builder: Self)
        ensures
            builder == (ImageViewInfoBuilder { aspect_mask: Some(value), ..self }),
    {
        let mut builder = self;
        builder.aspect_mask = Some(value);
        builder
    }

    /// Sets the first array layer.
    pub fn base_array_layer(self, value: u32) -> (builder: Self)
        ensures
            builder == (ImageViewInfoBuilder { base_array_layer: Some(value), ..self }),
    {
        let mut builder = self;
        builder.base_array_layer = Some(value);
        builder
    }

    /// Sets the first mip level.
    pub fn base_mip_level(self, value: u32) -> (builder: Self)
        ensures
            builder == (ImageViewInfoBuilder { base_mip_level: Some(value), ..self }),
    {
        let mut builder = self;
        builder.base_mip_level = Some(value);
        builder
    }

    /// Sets the format.
    pub fn fmt(self, value: i32) -> (builder: Self)
        ensures
            builder == (ImageViewInfoBuilder { fmt: Some(value), ..self }),
    {
        let mut builder = self;
        builder.fmt = Some(value);
        builder
    }

    /// Sets the number of mip levels.
    pub fn mip_level_count(self, value: Option<u32>) -> (builder: Self)
        ensures
            builder == (ImageViewInfoBuilder { mip_level_count: Some(value), ..self }),
    {
        let mut builder = self;
        builder.mip_level_count = Some(value);
        builder
    }

    /// Sets the kind of view.
    pub fn ty(self, value: ImageType) -> (builder: Self)
        ensures
            builder == (ImageViewInfoBuilder { ty: Some(value), ..self }),
    {
        let mut builder = self;
        builder.ty = Some(value);
        builder
    }

    /// Whether every field is set.
    pub open spec fn complete(self) -> bool {
        self.array_layer_count is Some && self.aspect_mask is Some && self.base_array_layer is Some
            && self.base_mip_level is Some && self.fmt is Some && self.mip_level_count is Some
            && self.ty is Some
    }

    /// The name of the first field which is not set.
    pub open spec fn missing(self) -> Seq<char> {
        if self.array_layer_count is None {
            "array_layer_count"@
        } else if self.aspect_mask is None {
            "aspect_mask"@
        } else if self.base_array_layer is None {
            "base_array_layer"@
        } else if self.base_mip_level is None {
            "base_mip_level"@
        } else if self.fmt is None {
            "fmt"@
        } else if self.mip_level_count is None {
            "mip_level_count"@
        } else {
            "ty"@
        }
    }

    /// Builds the description, or names the first field which was not set.
    pub fn build(self) -> (info: Result<ImageViewInfo, UninitializedField>)
        ensures
            info is Ok <==> self.complete(),
            info is Ok ==> info->Ok_0 == (ImageViewInfo {
                array_layer_count: self.array_layer_count->0,
                aspect_mask: self.aspect_mask->0,
                base_array_layer: self.base_array_layer->0,
                base_mip_level: self.base_mip_level->0,
                fmt: self.fmt->0,
                mip_level_count: self.mip_level_count->0,
                ty: self.ty->0,
            }),
            info is Err ==> info->Err_0.name@ == self.missing(),
    {
        let array_layer_count = match self.array_layer_count {
            Some(value) => value,
            None => {
                return Err(UninitializedField { name: "array_layer_count" });
            },
        };
        let aspect_mask = match self.aspect_mask {
            Some(value) => value,
            None => {
                return Err(UninitializedField { name: "aspect_mask" });
            },
        };
        let base_array_layer = match self.base_array_layer {
            Some(value) => value,
            None => {
                return Err(UninitializedField { name: "base_array_layer" });
            },
        };
        let base_mip_level = match self.base_mip_level {
            Some(value) => value,
            None => {
                return Err(UninitializedField { name: "base_mip_level" });
            },
        };
        let fmt = match self.fmt {
            Some(value) => value,
            None => {
                return Err(UninitializedField { name: "fmt" });
            },
        };
        let mip_level_count = match self.mip_level_count {
            Some(value) => value,
            None => {
                return Err(UninitializedField { name: "mip_level_count" });
            },
        };
        let ty = match self.ty {
            Some(value) => value,
            None => {
                return Err(UninitializedField { name: "ty" });
            },
        };
        Ok(
            ImageViewInfo {
                array_layer_count,
                aspect_mask,
                base_array_layer,
                base_mip_level,
                fmt,
                mip_level_count,
                ty,
            },
        )
    }
}

/// A view which an image keeps for reuse.
#[derive(Clone, Copy, Debug, Eq, Hash, PartialEq, Structural)]
pub struct CachedView {
    pub info: ImageViewInfo,
    /// The handle of the view.
    pub view: u64,
}

/// An image of the device, with the views which have been made of it.
pub struct Image {
    image: u64,
    owned: bool,
    info: ImageInfo,
    image_view_cache: Vec<CachedView>,
}

/// What is to be destroyed when an image is dropped.
pub struct ImageDropped {
    /// The views which the image kept.
    pub views: Vec<u64>,
    /// The image itself, where it was not owned by someone else.
    pub image: Option<u64>,
}

impl Image {
    /// The handle of the image.
    pub closed spec fn handle(&self) -> u64 {
        self.image
    }

    /// Whether the image and its memory belong to this value. The images of a swapchain do
    /// not: the swapchain owns them.
    pub closed spec fn is_owned(&self) -> bool {
        self.owned
    }

    /// What the image was created with.
    pub closed spec fn description(&self) -> ImageInfo {
        self.info
    }

    /// The views which are kept, in the order in which they were made.
    pub closed spec fn views(&self) -> Seq<CachedView> {
        self.image_view_cache@
    }

    /// The invariant of an image: no two views are kept for one description.
    pub closed spec fn wf(&self) -> bool {
        forall|i: int, j: int|
            0 <= i < j < self.image_view_cache@.len()
                ==> (#[trigger] self.image_view_cache@[i]).info
                != (#[trigger] self.image_view_cache@[j]).info
    }

    /// Whether a view is kept for `info`.
    pub open spec fn has_view(&self, info: ImageViewInfo) -> bool {
        exists|i: int| 0 <= i < self.views().len() && (#[trigger] self.views()[i]).info == info
    }

    /// The view which is kept for `info`.
    pub open spec fn view_of(&self, info: ImageViewInfo) -> u64 {
        self.views()[choose|i: int|
            0 <= i < self.views().len() && (#[trigger] self.views()[i]).info == info].view
    }

    /// An image which the device has created for `info`, together with its memory.
    pub fn created(image: u64, info: ImageInfo) -> (this: Image)
        ensures
            this.wf(),
            this.handle() == image,
            this.is_owned(),
            this.description() == info,
            this.views() == Seq::<CachedView>::empty(),
    {
        Image { image, owned: true, info, image_view_cache: Vec::new() }
    }

    /// An image which someone else owns.
    pub fn from_raw(image: u64, info: ImageInfo) -> (this: Image)
        ensures
            this.wf(),
            this.handle() == image,
            !this.is_owned(),
            this.description() == info,
            this.views() == Seq::<CachedView>::empty(),
    {
        Image { image, owned: false, info, image_view_cache: Vec::new() }
    }

    /// A second value for the same image, which does not own it and keeps no views yet.
    pub fn clone_raw(this: &Self) -> (copy: Image)
        ensures
            copy.wf(),
            copy.handle() == this.handle(),
            !copy.is_owned(),
            copy.description() == this.description(),
            copy.views() == Seq::<CachedView>::empty(),
    {
        Image { image: this.image, owned: false, info: this.info, image_view_cache: Vec::new() }
    }

    /// The handle of the image.
    pub fn image(&self) -> (image: u64)
        ensures
            image == self.handle(),
    {
        self.image
    }

    /// What the image was created with.
    pub fn info(&self) -> (info: ImageInfo)
        ensures
            info == self.description(),
    {
        self.info
    }

    /// The view which is kept for `info`, if one is.
    pub fn view_ref(this: &Self, info: ImageViewInfo) -> (view: Option<u64>)
        requires
            this.wf(),
        ensures
            view is Some <==> this.has_view(info),
            view is Some ==> view->0 == this.view_of(info),
    {
        let mut i: usize = 0;
        while i < this.image_view_cache.len()
            invariant
                this.wf(),
                i <= this.image_view_cache@.len(),
                forall|j: int| 0 <= j < i ==> (#[trigger] this.image_view_cache@[j]).info != info,
            decreases this.image_view_cache@.len() - i,
        {
            if this.image_view_cache[i].info == info {
                proof {
                    assert(this.views()[i as int].info == info);
                    let at = choose|at: int|
                        0 <= at < this.views().len() && (#[trigger] this.views()[at]).info == info;
                    assert(this.image_view_cache@[at].info == info);
                    if at < i {
                        assert(this.image_view_cache@[at].info != this.image_view_cache@[i as int].info);
                    } else if at > i {
                        assert(this.image_view_cache@[i as int].info != this.image_view_cache@[at].info);
                    }
                }
                return Some(this.image_view_cache[i].view);
            }
            i += 1;
        }
        None
    }

    /// Keeps the view `view`, which the device has created for `info`, after
    /// [`Image::view_ref`] had found none. Where a view is kept for `info` already, nothing
    /// changes and `view` is handed back for the caller to destroy.
    pub fn keep_view(&mut self, info: ImageViewInfo, view: u64) -> (refused: Option<u64>)
        requires
            old(self).wf(),
        ensures
            final(self).wf(),
            final(self).handle() == old(self).handle(),
            final(self).is_owned() == old(self).is_owned(),
            final(self).description() == old(self).description(),
            if old(self).has_view(info) {
                refused == Some(view) && final(self).views() == old(self).views()
            } else {
                refused is None && final(self).views() == old(self).views().push(
                    CachedView { info, view },
                ) && final(self).has_view(info) && final(self).view_of(info) == view
            },
    {
        match Self::view_ref(self, info) {
            Some(_) => Some(view),
            None => {
                let ghost before = self.image_view_cache@;
                self.image_view_cache.push(CachedView { info, view });
                proof {
                    let n = before.len() as int;
                    assert(self.views()[n].info == info);
                    assert forall|i: int, j: int|
                        0 <= i < j < self.image_view_cache@.len() implies (
                    #[trigger] self.image_view_cache@[i]).info != (
                    #[trigger] self.image_view_cache@[j]).info by {
                        if j == n {
                            assert(before[i].info != info);
                        } else {
                            assert(before[i].info != before[j].info);
                        }
                    }
                    let at = choose|at: int|
                        0 <= at < self.views().len() && (#[trigger] self.views()[at]).info == info;
                    assert(self.image_view_cache@[at].info == info);
                    if at < n {
                        assert(before[at].info != info);
                    }
                }
                None
            },
        }
    }

    /// Drops the image: the views which it kept are given up, and so is the image where it
    /// belongs to this value. What is handed back is for the caller to destroy.
    pub fn destroy(self) -> (dropped: ImageDropped)
        ensures
            dropped.views@.len() == self.views().len(),
            forall|i: int|
                0 <= i < self.views().len() ==> #[trigger] dropped.views@[i]
                    == self.views()[i].view,
            dropped.image == if self.is_owned() {
                Some(self.handle())
            } else {
                None
            },
    {
        let mut views: Vec<u64> = Vec::new();
        let mut i: usize = 0;
        while i < self.image_view_cache.len()
            invariant
                i <= self.image_view_cache@.len(),
                views@.len() == i,
                forall|j: int| 0 <= j < i
                    ==> #[trigger] views@[j] == self.image_view_cache@[j].view,
            decreases self.image_view_cache@.len() - i,
        {
            views.push(self.image_view_cache[i].view);
            i += 1;
        }
        ImageDropped {
            views,
            image: if self.owned {
                Some(self.image)
            } else {
                None
            },
        }
    }
}

} // verus!
