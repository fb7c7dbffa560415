//! Image pixel formats and their four-character engine codes.
//!
//! The engine describes a pixel format as four ASCII characters packed into
//! one 32-bit value, first character in the lowest byte. The constants below
//! are plain literals, each proved equal to the packed form of its four
//! characters by [`lemma_image_codes_are_packed`].

use vstd::prelude::*;

verus! {

/// The packed form of a four-character format code: the first character in
/// the lowest byte, the fourth in the highest.
pub open spec fn df_image_code(a: char, b: char, c: char, d: char) -> int
    recommends
        (a as u32) < 128,
        (b as u32) < 128,
        (c as u32) < 128,
        (d as u32) < 128,
{
    a as u32 + b as u32 * 0x100 + c as u32 * 0x10000 + d as u32 * 0x1000000
}

/// Packs four ASCII characters into a format code.
pub fn vx_df_image(a: char, b: char, c: char, d: char) -> (r: u32)
    requires
        (a as u32) < 128,
        (b as u32) < 128,
        (c as u32) < 128,
        (d as u32) < 128,
    ensures
        r == df_image_code(a, b, c, d),
{
    a as u32 + b as u32 * 0x100 + c as u32 * 0x10000 + d as u32 * 0x1000000
}

/// A virtual image of no defined type: `VIRT`.
pub const VX_DF_IMAGE_VIRT: u32 = 0x54524956;
/// A single plane of 24-bit pixels as interleaved 8-bit R, G, B units:
/// `RGB2`.
pub const VX_DF_IMAGE_RGB: u32 = 0x32424752;
/// A single plane of 32-bit pixels as interleaved 8-bit R, G, B units and a
/// don't-care byte: `RGBA`.
pub const VX_DF_IMAGE_RGBX: u32 = 0x41424752;
/// A 2-plane YUV format of luma and interleaved UV data at 4:2:0 sampling:
/// `NV12`.
pub const VX_DF_IMAGE_NV12: u32 = 0x3231564E;
/// A 2-plane YUV format of luma and interleaved VU data at 4:2:0 sampling:
/// `NV21`.
pub const VX_DF_IMAGE_NV21: u32 = 0x3132564E;
/// A single plane of 32-bit macro pixels of U0, Y0, V0, Y1 bytes: `UYVY`.
pub const VX_DF_IMAGE_UYVY: u32 = 0x59565955;
/// A single plane of 32-bit macro pixels of Y0, U0, Y1, V0 bytes: `YUYV`.
pub const VX_DF_IMAGE_YUYV: u32 = 0x56595559;
/// Three planes of 8-bit 4:2:0 sampled Y, U, V data: `IYUV`.
pub const VX_DF_IMAGE_IYUV: u32 = 0x56555949;
/// Three planes of 8-bit 4:4:4 sampled Y, U, V data: `YUV4`.
pub const VX_DF_IMAGE_YUV4: u32 = 0x34565559;
/// A single plane of unsigned 1-bit data, eight pixels per byte: `U001`.
pub const VX_DF_IMAGE_U1: u32 = 0x31303055;
/// A single plane of unsigned 8-bit data: `U008`.
pub const VX_DF_IMAGE_U8: u32 = 0x38303055;
/// A single plane of unsigned 16-bit data: `U016`.
pub const VX_DF_IMAGE_U16: u32 = 0x36313055;
/// A single plane of signed 16-bit data: `S016`.
pub const VX_DF_IMAGE_S16: u32 = 0x36313053;
/// A single plane of unsigned 32-bit data: `U032`.
pub const VX_DF_IMAGE_U32: u32 = 0x32333055;
/// A single plane of signed 32-bit data: `S032`.
pub const VX_DF_IMAGE_S32: u32 = 0x32333053;

/// Each format constant equals the packed form of its four characters.
pub proof fn lemma_image_codes_are_packed()
    ensures
        VX_DF_IMAGE_VIRT == df_image_code('V', 'I', 'R', 'T'),
        VX_DF_IMAGE_RGB == df_image_code('R', 'G', 'B', '2'),
        VX_DF_IMAGE_RGBX == df_image_code('R', 'G', 'B', 'A'),
        VX_DF_IMAGE_NV12 == df_image_code('N', 'V', '1', '2'),
        VX_DF_IMAGE_NV21 == df_image_code('N', 'V', '2', '1'),
        VX_DF_IMAGE_UYVY == df_image_code('U', 'Y', 'V', 'Y'),
        VX_DF_IMAGE_YUYV == df_image_code('Y', 'U', 'Y', 'V'),
        VX_DF_IMAGE_IYUV == df_image_code('I', 'Y', 'U', 'V'),
        VX_DF_IMAGE_YUV4 == df_image_code('Y', 'U', 'V', '4'),
        VX_DF_IMAGE_U1 == df_image_code('U', '0', '0', '1'),
        VX_DF_IMAGE_U8 == df_image_code('U', '0', '0', '8'),
        VX_DF_IMAGE_U16 == df_image_code('U', '0', '1', '6'),
        VX_DF_IMAGE_S16 == df_image_code('S', '0', '1', '6'),
        VX_DF_IMAGE_U32 == df_image_code('U', '0', '3', '2'),
        VX_DF_IMAGE_S32 == df_image_code('S', '0', '3', '2'),
{
}

/// A pixel format, as a named code or an unknown code preserved verbatim.
#[derive(Debug, Eq, PartialEq, Structural, Copy, Clone)]
pub enum ImageType {
    /// A virtual image of no defined type.
    Virtual,
    /// A single plane of 24-bit pixels as interleaved 8-bit R, G, B units.
    RGB,
    /// A single plane of 32-bit pixels as interleaved 8-bit R, G, B units
    /// and a don't-care byte.
    RGBX,
    /// A 2-plane YUV format of luma and interleaved UV data at 4:2:0
    /// sampling.
    NV12,
    /// A 2-plane YUV format of luma and interleaved VU data at 4:2:0
    /// sampling.
    NV21,
    /// A single plane of 32-bit macro pixels of U0, Y0, V0, Y1 bytes.
    UYVY,
    /// A single plane of 32-bit macro pixels of Y0, U0, Y1, V0 bytes.
    YUYV,
    /// Three planes of 8-bit 4:2:0 sampled Y, U, V data.
    IYUV,
    /// Three planes of 8-bit 4:4:4 sampled Y, U, V data.
    YUV4,
    /// A single plane of unsigned 1-bit data, eight pixels per byte.
    U1,
    /// A single plane of unsigned 8-bit data.
    U8,
    /// A single plane of unsigned 16-bit data.
    U16,
    /// A single plane of signed 16-bit data.
    S16,
    /// A single plane of unsigned 32-bit data.
    U32,
    /// A single plane of signed 32-bit data.
    S32,
    /// An unknown format code, preserved verbatim.
    Other { code: u32 },
}

/// The format a format code decodes to. A code outside the named set
/// decodes to `Other` and is preserved verbatim.
pub open spec fn image_type_of(code: u32) -> ImageType {
    if code == VX_DF_IMAGE_VIRT {
        ImageType::Virtual
    } else if code == VX_DF_IMAGE_RGB {
        ImageType::RGB
    } else if code == VX_DF_IMAGE_RGBX {
        ImageType::RGBX
    } else if code == VX_DF_IMAGE_NV12 {
        ImageType::NV12
    } else if code == VX_DF_IMAGE_NV21 {
        ImageType::NV21
    } else if code == VX_DF_IMAGE_UYVY {
        ImageType::UYVY
    } else if code == VX_DF_IMAGE_YUYV {
        ImageType::YUYV
    } else if code == VX_DF_IMAGE_IYUV {
        ImageType::IYUV
    } else if code == VX_DF_IMAGE_YUV4 {
        ImageType::YUV4
    } else if code == VX_DF_IMAGE_U1 {
        ImageType::U1
    } else if code == VX_DF_IMAGE_U8 {
        ImageType::U8
    } else if code == VX_DF_IMAGE_U16 {
        ImageType::U16
    } else if code == VX_DF_IMAGE_S16 {
        ImageType::S16
    } else if code == VX_DF_IMAGE_U32 {
        ImageType::U32
    } else if code == VX_DF_IMAGE_S32 {
        ImageType::S32
    } else {
        ImageType::Other { code }
    }
}

/// The format code that encodes a format.
pub open spec fn image_type_code(t: ImageType) -> u32 {
    match t {
        ImageType::Virtual => VX_DF_IMAGE_VIRT,
        ImageType::RGB => VX_DF_IMAGE_RGB,
        ImageType::RGBX => VX_DF_IMAGE_RGBX,
        ImageType::NV12 => VX_DF_IMAGE_NV12,
        ImageType::NV21 => VX_DF_IMAGE_NV21,
        ImageType::UYVY => VX_DF_IMAGE_UYVY,
        ImageType::YUYV => VX_DF_IMAGE_YUYV,
        ImageType::IYUV => VX_DF_IMAGE_IYUV,
        ImageType::YUV4 => VX_DF_IMAGE_YUV4,
        ImageType::U1 => VX_DF_IMAGE_U1,
        ImageType::U8 => VX_DF_IMAGE_U8,
        ImageType::U16 => VX_DF_IMAGE_U16,
        ImageType::S16 => VX_DF_IMAGE_S16,
        ImageType::U32 => VX_DF_IMAGE_U32,
        ImageType::S32 => VX_DF_IMAGE_S32,
        ImageType::Other { code } => code,
    }
}

impl ImageType {
    /// Decodes a format code.
    pub fn new(code: u32) -> (r: ImageType)
        ensures
            r == image_type_of(code),
    {
        if code == VX_DF_IMAGE_VIRT {
            ImageType::Virtual
        } else if code == VX_DF_IMAGE_RGB {
            ImageType::RGB
        } else if code == VX_DF_IMAGE_RGBX {
            ImageType::RGBX
        } else if code == VX_DF_IMAGE_NV12 {
            ImageType::NV12
        } else if code == VX_DF_IMAGE_NV21 {
            ImageType::NV21
        } else if code == VX_DF_IMAGE_UYVY {
            ImageType::UYVY
        } else if code == VX_DF_IMAGE_YUYV {
            ImageType::YUYV
        } else if code == VX_DF_IMAGE_IYUV {
            ImageType::IYUV
        } else if code == VX_DF_IMAGE_YUV4 {
            ImageType::YUV4
        } else if code == VX_DF_IMAGE_U1 {
            ImageType::U1
        } else if code == VX_DF_IMAGE_U8 {
            ImageType::U8
        } else if code == VX_DF_IMAGE_U16 {
            ImageType::U16
        } else if code == VX_DF_IMAGE_S16 {
            ImageType::S16
        } else if code == VX_DF_IMAGE_U32 {
            ImageType::U32
        } else if code == VX_DF_IMAGE_S32 {
            ImageType::S32
        } else {
            ImageType::Other { code }
        }
    }

    /// Encodes this format back into its format code.
    pub fn to_raw(&self) -> (r: u32)
        ensures
            r == image_type_code(*self),
    {
        match *self {
            ImageType::Virtual => VX_DF_IMAGE_VIRT,
            ImageType::RGB => VX_DF_IMAGE_RGB,
            ImageType::RGBX => VX_DF_IMAGE_RGBX,
            ImageType::NV12 => VX_DF_IMAGE_NV12,
            ImageType::NV21 => VX_DF_IMAGE_NV21,
            ImageType::UYVY => VX_DF_IMAGE_UYVY,
            ImageType::YUYV => VX_DF_IMAGE_YUYV,
            ImageType::IYUV => VX_DF_IMAGE_IYUV,
            ImageType::YUV4 => VX_DF_IMAGE_YUV4,
            ImageType::U1 => VX_DF_IMAGE_U1,
            ImageType::U8 => VX_DF_IMAGE_U8,
            ImageType::U16 => VX_DF_IMAGE_U16,
            ImageType::S16 => VX_DF_IMAGE_S16,
            ImageType::U32 => VX_DF_IMAGE_U32,
            ImageType::S32 => VX_DF_IMAGE_S32,
            ImageType::Other { code } => code,
        }
    }

    /// The bytes each pixel occupies in this format, or `None` for
    /// multi-plane, sub-byte and unknown formats, which have no single
    /// per-pixel byte width.
    pub fn pixel_bytes(&self) -> (r: Option<usize>)
        ensures
            r == image_type_pixel_bytes(*self),
    {
        match *self {
            ImageType::RGB => Some(3usize),
            ImageType::RGBX => Some(4usize),
            ImageType::UYVY => Some(2usize),
            ImageType::YUYV => Some(2usize),
            ImageType::U8 => Some(1usize),
            ImageType::U16 => Some(2usize),
            ImageType::S16 => Some(2usize),
            ImageType::U32 => Some(4usize),
            ImageType::S32 => Some(4usize),
            _ => None,
        }
    }

    /// Whether this format is one of the color formats.
    pub fn is_color(&self) -> (r: bool)
        ensures
            r <==> image_type_is_color(*self),
    {
        match *self {
            ImageType::RGB => true,
            ImageType::RGBX => true,
            ImageType::NV12 => true,
            ImageType::NV21 => true,
            ImageType::UYVY => true,
            ImageType::YUYV => true,
            ImageType::IYUV => true,
            ImageType::YUV4 => true,
            _ => false,
        }
    }
}

/// Whether a format is one of the color formats.
pub open spec fn image_type_is_color(t: ImageType) -> bool {
    t is RGB || t is RGBX || t is NV12 || t is NV21 || t is UYVY || t is YUYV || t is IYUV
        || t is YUV4
}

/// The bytes each pixel occupies in a single-plane format, `None` for
/// multi-plane, sub-byte and unknown formats.
pub open spec fn image_type_pixel_bytes(t: ImageType) -> Option<usize> {
    match t {
        ImageType::RGB => Some(3usize),
        ImageType::RGBX => Some(4usize),
        ImageType::UYVY => Some(2usize),
        ImageType::YUYV => Some(2usize),
        ImageType::U8 => Some(1usize),
        ImageType::U16 => Some(2usize),
        ImageType::S16 => Some(2usize),
        ImageType::U32 => Some(4usize),
        ImageType::S32 => Some(4usize),
        _ => None,
    }
}

impl From<u32> for ImageType {
    /// Decodes a format code, as [`ImageType::new`] does.
    fn from(code: u32) -> (r: ImageType) {
        ImageType::new(code)
    }
}

impl vstd::std_specs::convert::FromSpecImpl<u32> for ImageType {
    open spec fn obeys_from_spec() -> bool {
        true
    }

    open spec fn from_spec(code: u32) -> ImageType {
        image_type_of(code)
    }
}

/// Every named format survives the round trip through its code: decoding
/// the code a format encodes to yields that same format back.
pub proof fn lemma_image_type_round_trip(t: ImageType)
    requires
        !(t is Other),
    ensures
        image_type_of(image_type_code(t)) == t,
{
}

} // verus!
