//! Client-side pixel formats, requested texture formats, and the negotiation
//! from a format request to concrete driver format codes.

use vstd::prelude::*;

use crate::context::{Api, Extensions, Version, spec_at_least};

verus! {

/// Driver code for unsized one-component storage.
pub const GL_RED: u32 = 0x1903;
/// Driver code for unsized two-component storage.
pub const GL_RG: u32 = 0x8227;
/// Driver code for unsized three-component storage.
pub const GL_RGB: u32 = 0x1907;
/// Driver code for unsized four-component storage.
pub const GL_RGBA: u32 = 0x1908;
/// Driver code for unsized depth storage.
pub const GL_DEPTH_COMPONENT: u32 = 0x1902;
/// Driver code for unsized combined depth and stencil storage.
pub const GL_DEPTH_STENCIL: u32 = 0x84F9;
/// Driver code for eight-bit four-component storage.
pub const GL_RGBA8: u32 = 0x8058;
/// Driver code for eight-bit three-component storage.
pub const GL_RGB8: u32 = 0x8051;
/// Driver code for 24-bit depth storage.
pub const GL_DEPTH_COMPONENT24: u32 = 0x81A6;
/// Driver code for 32-bit depth storage.
pub const GL_DEPTH_COMPONENT32: u32 = 0x81A7;
/// Driver code for combined 24-bit depth and eight-bit stencil storage.
pub const GL_DEPTH24_STENCIL8: u32 = 0x88F0;
/// Driver code for block-compressed three-component storage.
pub const GL_COMPRESSED_RGB_S3TC_DXT1: u32 = 0x83F0;
/// Driver code for block-compressed four-component storage, one-bit alpha.
pub const GL_COMPRESSED_RGBA_S3TC_DXT1: u32 = 0x83F1;
/// Driver code for block-compressed four-component storage, explicit alpha.
pub const GL_COMPRESSED_RGBA_S3TC_DXT3: u32 = 0x83F2;
/// Driver code for block-compressed four-component storage, interpolated alpha.
pub const GL_COMPRESSED_RGBA_S3TC_DXT5: u32 = 0x83F3;
/// Driver code for the eight-bit unsigned component type.
pub const GL_UNSIGNED_BYTE: u32 = 0x1401;
/// Driver code for the 32-bit floating component type.
pub const GL_FLOAT: u32 = 0x1406;
/// Driver code for the packed 24-bit depth, eight-bit stencil component type.
pub const GL_UNSIGNED_INT_24_8: u32 = 0x84FA;

/// The in-host-memory layout of pixel data supplied by a caller.
#[derive(Copy, Clone, Debug, PartialEq, Eq, Structural)]
pub enum ClientFormat {
    /// One byte per pixel.
    U8,
    /// Two bytes per pixel.
    U8U8,
    /// Three bytes per pixel.
    U8U8U8,
    /// Four bytes per pixel.
    U8U8U8U8,
    /// Block-compressed data, eight bytes per four-by-four block.
    CompressedRgbS3tcDxt1,
    /// Block-compressed data, eight bytes per four-by-four block.
    CompressedRgbaS3tcDxt1,
    /// Block-compressed data, sixteen bytes per four-by-four block.
    CompressedRgbaS3tcDxt3,
    /// Block-compressed data, sixteen bytes per four-by-four block.
    CompressedRgbaS3tcDxt5,
}

/// A sized texture storage format a caller may request.
#[derive(Copy, Clone, Debug, PartialEq, Eq, Structural)]
pub enum TextureFormat {
    Rgba8,
    Rgb8,
    CompressedRgbS3tcDxt1,
    CompressedRgbaS3tcDxt1,
    CompressedRgbaS3tcDxt3,
    CompressedRgbaS3tcDxt5,
    DepthComponent24,
    DepthComponent32,
    Depth24Stencil8,
}

/// What a caller asks of the negotiation: any colour format, any depth
/// format, any combined depth and stencil format, or one specific format.
#[derive(Copy, Clone, Debug, PartialEq, Eq, Structural)]
pub enum TextureFormatRequest {
    Any,
    AnyDepth,
    AnyDepthStencil,
    Specific(TextureFormat),
}

/// The requested format cannot be satisfied by the driver the context reports.
#[derive(Copy, Clone, Debug, PartialEq, Eq, Structural)]
pub struct FormatNotSupportedError;

impl ClientFormat {
    /// Whether this client format carries block-compressed data.
    pub open spec fn spec_is_compressed(self) -> bool {
        match self {
            ClientFormat::U8 => false,
            ClientFormat::U8U8 => false,
            ClientFormat::U8U8U8 => false,
            ClientFormat::U8U8U8U8 => false,
            _ => true,
        }
    }

    /// Whether this client format carries block-compressed data.
    pub fn is_compressed(&self) -> (r: bool)
        ensures
            r == self.spec_is_compressed(),
    {
        match *self {
            ClientFormat::U8 => false,
            ClientFormat::U8U8 => false,
            ClientFormat::U8U8U8 => false,
            ClientFormat::U8U8U8U8 => false,
            _ => true,
        }
    }

    /// Bytes one pixel occupies; meaningful for uncompressed formats only.
    pub open spec fn spec_bytes_per_pixel(self) -> nat {
        match self {
            ClientFormat::U8 => 1,
            ClientFormat::U8U8 => 2,
            ClientFormat::U8U8U8 => 3,
            ClientFormat::U8U8U8U8 => 4,
            _ => 0,
        }
    }

    /// Bytes one four-by-four block occupies; meaningful for compressed
    /// formats only.
    pub open spec fn spec_block_bytes(self) -> nat {
        match self {
            ClientFormat::CompressedRgbS3tcDxt1 => 8,
            ClientFormat::CompressedRgbaS3tcDxt1 => 8,
            ClientFormat::CompressedRgbaS3tcDxt3 => 16,
            ClientFormat::CompressedRgbaS3tcDxt5 => 16,
            _ => 0,
        }
    }

    /// The driver code this client format uploads as. For compressed formats
    /// it is the block-compressed storage code itself.
    pub open spec fn spec_gl_code(self) -> u32 {
        match self {
            ClientFormat::U8 => GL_RED,
            ClientFormat::U8U8 => GL_RG,
            ClientFormat::U8U8U8 => GL_RGB,
            ClientFormat::U8U8U8U8 => GL_RGBA,
            ClientFormat::CompressedRgbS3tcDxt1 => GL_COMPRESSED_RGB_S3TC_DXT1,
            ClientFormat::CompressedRgbaS3tcDxt1 => GL_COMPRESSED_RGBA_S3TC_DXT1,
            ClientFormat::CompressedRgbaS3tcDxt3 => GL_COMPRESSED_RGBA_S3TC_DXT3,
            ClientFormat::CompressedRgbaS3tcDxt5 => GL_COMPRESSED_RGBA_S3TC_DXT5,
        }
    }

    /// The exact byte count a client-side buffer must have for the given
    /// extents: pixels times bytes per pixel for uncompressed formats,
    /// whole four-by-four blocks times block size for compressed ones.
    /// Absent axes count as one.
    pub open spec fn spec_buffer_size(
        self,
        width: u32,
        height: Option<u32>,
        depth: Option<u32>,
        array_size: Option<u32>,
    ) -> nat {
        let h = spec_axis_or_one(height);
        let d = spec_axis_or_one(depth);
        let a = spec_axis_or_one(array_size);
        if self.spec_is_compressed() {
            let bw = ((width as nat + 3nat) / 4nat);
            let bh = ((h + 3nat) / 4nat);
            (((self.spec_block_bytes() * bw) * bh) * d) * a
        } else {
            (((self.spec_bytes_per_pixel() * (width as nat)) * h) * d) * a
        }
    }

    /// The exact byte count a client-side buffer must have for the given
    /// extents, or `None` where that count does not fit in a `u64`.
    pub fn checked_buffer_size(
        &self,
        width: u32,
        height: Option<u32>,
        depth: Option<u32>,
        array_size: Option<u32>,
    ) -> (r: Option<u64>)
        ensures
            match r {
                Some(n) => n == self.spec_buffer_size(width, height, depth, array_size),
                None => self.spec_buffer_size(width, height, depth, array_size) > u64::MAX,
            },
    {
        let h: u64 = axis_or_one(height) as u64;
        let d: u64 = axis_or_one(depth) as u64;
        let a: u64 = axis_or_one(array_size) as u64;
        if self.is_compressed() {
            let bw: u64 = (width as u64 + 3) / 4;
            let bh: u64 = (h + 3) / 4;
            let block: u64 = match *self {
                ClientFormat::CompressedRgbS3tcDxt1 => 8,
                ClientFormat::CompressedRgbaS3tcDxt1 => 8,
                ClientFormat::CompressedRgbaS3tcDxt3 => 16,
                ClientFormat::CompressedRgbaS3tcDxt5 => 16,
                _ => 0,
            };
            checked_product(block, bw, bh, d, a)
        } else {
            let bpp: u64 = match *self {
                ClientFormat::U8 => 1,
                ClientFormat::U8U8 => 2,
                ClientFormat::U8U8U8 => 3,
                ClientFormat::U8U8U8U8 => 4,
                _ => 0,
            };
            checked_product(bpp, width as u64, h, d, a)
        }
    }

    /// Maps a driver-internal block-compressed storage code back to the
    /// client format it transfers as; `None` for an unrecognized code.
    pub open spec fn spec_from_internal_compressed_format(code: u32) -> Option<ClientFormat> {
        if code == GL_COMPRESSED_RGB_S3TC_DXT1 {
            Some(ClientFormat::CompressedRgbS3tcDxt1)
        } else if code == GL_COMPRESSED_RGBA_S3TC_DXT1 {
            Some(ClientFormat::CompressedRgbaS3tcDxt1)
        } else if code == GL_COMPRESSED_RGBA_S3TC_DXT3 {
            Some(ClientFormat::CompressedRgbaS3tcDxt3)
        } else if code == GL_COMPRESSED_RGBA_S3TC_DXT5 {
            Some(ClientFormat::CompressedRgbaS3tcDxt5)
        } else {
            None
        }
    }

    /// Maps a driver-internal block-compressed storage code back to the
    /// client format it transfers as; `None` for an unrecognized code.
    pub fn from_internal_compressed_format(code: u32) -> (r: Option<ClientFormat>)
        ensures
            r == Self::spec_from_internal_compressed_format(code),
    {
        if code == GL_COMPRESSED_RGB_S3TC_DXT1 {
            Some(ClientFormat::CompressedRgbS3tcDxt1)
        } else if code == GL_COMPRESSED_RGBA_S3TC_DXT1 {
            Some(ClientFormat::CompressedRgbaS3tcDxt1)
        } else if code == GL_COMPRESSED_RGBA_S3TC_DXT3 {
            Some(ClientFormat::CompressedRgbaS3tcDxt3)
        } else if code == GL_COMPRESSED_RGBA_S3TC_DXT5 {
            Some(ClientFormat::CompressedRgbaS3tcDxt5)
        } else {
            None
        }
    }
}

/// An absent axis counts as an extent of one.
pub open spec fn spec_axis_or_one(axis: Option<u32>) -> nat {
    match axis {
        Some(x) => x as nat,
        None => 1nat,
    }
}

/// An absent axis counts as an extent of one.
pub fn axis_or_one(axis: Option<u32>) -> (r: u32)
    ensures
        r == spec_axis_or_one(axis),
{
    match axis {
        Some(x) => x,
        None => 1,
    }
}

/// The product of five factors, or `None` where it exceeds `u64::MAX`.
fn checked_product(f0: u64, f1: u64, f2: u64, f3: u64, f4: u64) -> (r: Option<u64>)
    ensures
        match r {
            Some(n) => n == (((f0 * f1) * f2) * f3) * f4,
            None => (((f0 * f1) * f2) * f3) * f4 > u64::MAX,
        },
{
    if f0 == 0 || f1 == 0 || f2 == 0 || f3 == 0 || f4 == 0 {
        proof {
            lemma_product_zero(f0 as int, f1 as int, f2 as int, f3 as int, f4 as int);
        }
        return Some(0);
    }
    let s1 = match f0.checked_mul(f1) {
        Some(v) => v,
        None => {
            proof {
                lemma_product_monotone(f0 as int, f1 as int, f2 as int, f3 as int, f4 as int);
            }
            return None;
        },
    };
    let s2 = match s1.checked_mul(f2) {
        Some(v) => v,
        None => {
            proof {
                lemma_product_monotone(f0 as int, f1 as int, f2 as int, f3 as int, f4 as int);
            }
            return None;
        },
    };
    let s3 = match s2.checked_mul(f3) {
        Some(v) => v,
        None => {
            proof {
                lemma_product_monotone(f0 as int, f1 as int, f2 as int, f3 as int, f4 as int);
            }
            return None;
        },
    };
    match s3.checked_mul(f4) {
        Some(v) => Some(v),
        None => None,
    }
}

/// A product with a zero factor is zero.
proof fn lemma_product_zero(f0: int, f1: int, f2: int, f3: int, f4: int)
    requires
        f0 == 0 || f1 == 0 || f2 == 0 || f3 == 0 || f4 == 0,
        f0 >= 0 && f1 >= 0 && f2 >= 0 && f3 >= 0 && f4 >= 0,
    ensures
        (((f0 * f1) * f2) * f3) * f4 == 0,
{
    assert((((f0 * f1) * f2) * f3) * f4 == 0) by (nonlinear_arith)
        requires
            f0 == 0 || f1 == 0 || f2 == 0 || f3 == 0 || f4 == 0,
    ;
}

/// With all factors at least one, every partial product is at most the whole.
proof fn lemma_product_monotone(f0: int, f1: int, f2: int, f3: int, f4: int)
    requires
        f0 >= 1 && f1 >= 1 && f2 >= 1 && f3 >= 1 && f4 >= 1,
    ensures
        f0 * f1 <= (((f0 * f1) * f2) * f3) * f4,
        (f0 * f1) * f2 <= (((f0 * f1) * f2) * f3) * f4,
        ((f0 * f1) * f2) * f3 <= (((f0 * f1) * f2) * f3) * f4,
{
    assert(f0 * f1 <= (((f0 * f1) * f2) * f3) * f4
        && (f0 * f1) * f2 <= (((f0 * f1) * f2) * f3) * f4
        && ((f0 * f1) * f2) * f3 <= (((f0 * f1) * f2) * f3) * f4) by (nonlinear_arith)
        requires
            f0 >= 1 && f1 >= 1 && f2 >= 1 && f3 >= 1 && f4 >= 1,
    ;
}

impl TextureFormat {
    /// The sized driver storage code of this format.
    pub open spec fn spec_internal_code(self) -> u32 {
        match self {
            TextureFormat::Rgba8 => GL_RGBA8,
            TextureFormat::Rgb8 => GL_RGB8,
            TextureFormat::CompressedRgbS3tcDxt1 => GL_COMPRESSED_RGB_S3TC_DXT1,
            TextureFormat::CompressedRgbaS3tcDxt1 => GL_COMPRESSED_RGBA_S3TC_DXT1,
            TextureFormat::CompressedRgbaS3tcDxt3 => GL_COMPRESSED_RGBA_S3TC_DXT3,
            TextureFormat::CompressedRgbaS3tcDxt5 => GL_COMPRESSED_RGBA_S3TC_DXT5,
            TextureFormat::DepthComponent24 => GL_DEPTH_COMPONENT24,
            TextureFormat::DepthComponent32 => GL_DEPTH_COMPONENT32,
            TextureFormat::Depth24Stencil8 => GL_DEPTH24_STENCIL8,
        }
    }

    /// The sized driver storage code of this format.
    pub fn internal_code(&self) -> (r: u32)
        ensures
            r == self.spec_internal_code(),
    {
        match *self {
            TextureFormat::Rgba8 => GL_RGBA8,
            TextureFormat::Rgb8 => GL_RGB8,
            TextureFormat::CompressedRgbS3tcDxt1 => GL_COMPRESSED_RGB_S3TC_DXT1,
            TextureFormat::CompressedRgbaS3tcDxt1 => GL_COMPRESSED_RGBA_S3TC_DXT1,
            TextureFormat::CompressedRgbaS3tcDxt3 => GL_COMPRESSED_RGBA_S3TC_DXT3,
            TextureFormat::CompressedRgbaS3tcDxt5 => GL_COMPRESSED_RGBA_S3TC_DXT5,
            TextureFormat::DepthComponent24 => GL_DEPTH_COMPONENT24,
            TextureFormat::DepthComponent32 => GL_DEPTH_COMPONENT32,
            TextureFormat::Depth24Stencil8 => GL_DEPTH24_STENCIL8,
        }
    }

    /// Whether this format stores depth, alone or with stencil.
    pub open spec fn spec_is_depth_or_stencil(self) -> bool {
        match self {
            TextureFormat::DepthComponent24 => true,
            TextureFormat::DepthComponent32 => true,
            TextureFormat::Depth24Stencil8 => true,
            _ => false,
        }
    }

    /// Whether this format stores block-compressed data.
    pub open spec fn spec_is_compressed(self) -> bool {
        match self {
            TextureFormat::CompressedRgbS3tcDxt1 => true,
            TextureFormat::CompressedRgbaS3tcDxt1 => true,
            TextureFormat::CompressedRgbaS3tcDxt3 => true,
            TextureFormat::CompressedRgbaS3tcDxt5 => true,
            _ => false,
        }
    }

    /// Whether the driver the context reports can store this format.
    pub open spec fn spec_is_supported(self, v: Version, e: Extensions) -> bool {
        match self {
            TextureFormat::Rgba8 => true,
            TextureFormat::Rgb8 => true,
            TextureFormat::DepthComponent24 => true,
            TextureFormat::DepthComponent32 => true,
            TextureFormat::Depth24Stencil8 => spec_at_least(v, Api::Gl, 3, 0)
                || e.ext_packed_depth_stencil,
            _ => e.ext_texture_compression_s3tc,
        }
    }
}

impl TextureFormatRequest {
    /// Whether the request names depth-only storage.
    pub open spec fn spec_is_depth(self) -> bool {
        match self {
            TextureFormatRequest::AnyDepth => true,
            TextureFormatRequest::Specific(TextureFormat::DepthComponent24) => true,
            TextureFormatRequest::Specific(TextureFormat::DepthComponent32) => true,
            _ => false,
        }
    }

    /// Whether the request names combined depth and stencil storage.
    pub open spec fn spec_is_depth_stencil(self) -> bool {
        match self {
            TextureFormatRequest::AnyDepthStencil => true,
            TextureFormatRequest::Specific(TextureFormat::Depth24Stencil8) => true,
            _ => false,
        }
    }

    /// Whether the request names a depth or depth-and-stencil class, for
    /// which mipmap auto-generation is never attempted.
    pub open spec fn spec_is_depth_class(self) -> bool {
        self.spec_is_depth() || self.spec_is_depth_stencil()
    }

    /// Whether the request names a depth or depth-and-stencil class.
    pub fn is_depth_class(&self) -> (r: bool)
        ensures
            r == self.spec_is_depth_class(),
    {
        match *self {
            TextureFormatRequest::AnyDepth => true,
            TextureFormatRequest::AnyDepthStencil => true,
            TextureFormatRequest::Specific(TextureFormat::DepthComponent24) => true,
            TextureFormatRequest::Specific(TextureFormat::DepthComponent32) => true,
            TextureFormatRequest::Specific(TextureFormat::Depth24Stencil8) => true,
            _ => false,
        }
    }
}

/// Outcome of resolving a format request: the code image uploads name, and,
/// where the request named a sized format the driver supports, the code an
/// immutable storage allocation would use.
pub open spec fn spec_format_request_result(
    v: Version,
    e: Extensions,
    client: Option<ClientFormat>,
    request: TextureFormatRequest,
) -> Result<(u32, Option<u32>), FormatNotSupportedError> {
    match request {
        TextureFormatRequest::Specific(f) => if f.spec_is_supported(v, e) {
            Ok((f.spec_internal_code(), Some(f.spec_internal_code())))
        } else {
            Err(FormatNotSupportedError)
        },
        TextureFormatRequest::Any => match client {
            Some(cf) => if cf.spec_is_compressed() {
                if e.ext_texture_compression_s3tc {
                    Ok((cf.spec_gl_code(), None))
                } else {
                    Err(FormatNotSupportedError)
                }
            } else {
                Ok((GL_RGBA, None))
            },
            None => Ok((GL_RGBA, None)),
        },
        TextureFormatRequest::AnyDepth => Ok((GL_DEPTH_COMPONENT, None)),
        TextureFormatRequest::AnyDepthStencil => if spec_at_least(v, Api::Gl, 3, 0)
            || e.ext_packed_depth_stencil {
            Ok((GL_DEPTH_STENCIL, None))
        } else {
            Err(FormatNotSupportedError)
        },
    }
}

/// Resolves a format request against the driver the context reports, as the
/// external negotiation tables would: the image-upload code, and the storage
/// allocation code where one exists.
pub fn format_request_to_glenum(
    v: &Version,
    e: &Extensions,
    client: Option<ClientFormat>,
    request: TextureFormatRequest,
) -> (r: Result<(u32, Option<u32>), FormatNotSupportedError>)
    ensures
        r == spec_format_request_result(*v, *e, client, request),
{
    match request {
        TextureFormatRequest::Specific(f) => {
            let supported = match f {
                TextureFormat::Rgba8 => true,
                TextureFormat::Rgb8 => true,
                TextureFormat::DepthComponent24 => true,
                TextureFormat::DepthComponent32 => true,
                TextureFormat::Depth24Stencil8 => v.is_at_least(Api::Gl, 3, 0)
                    || e.ext_packed_depth_stencil,
                _ => e.ext_texture_compression_s3tc,
            };
            if supported {
                let code = f.internal_code();
                Ok((code, Some(code)))
            } else {
                Err(FormatNotSupportedError)
            }
        },
        TextureFormatRequest::Any => match client {
            Some(cf) => {
                if cf.is_compressed() {
                    if e.ext_texture_compression_s3tc {
                        let code = match cf {
                            ClientFormat::CompressedRgbS3tcDxt1 => GL_COMPRESSED_RGB_S3TC_DXT1,
                            ClientFormat::CompressedRgbaS3tcDxt1 => GL_COMPRESSED_RGBA_S3TC_DXT1,
                            ClientFormat::CompressedRgbaS3tcDxt3 => GL_COMPRESSED_RGBA_S3TC_DXT3,
                            ClientFormat::CompressedRgbaS3tcDxt5 => GL_COMPRESSED_RGBA_S3TC_DXT5,
                            _ => GL_RGBA,
                        };
                        Ok((code, None))
                    } else {
                        Err(FormatNotSupportedError)
                    }
                } else {
                    Ok((GL_RGBA, None))
                }
            },
            None => Ok((GL_RGBA, None)),
        },
        TextureFormatRequest::AnyDepth => Ok((GL_DEPTH_COMPONENT, None)),
        TextureFormatRequest::AnyDepthStencil => {
            if v.is_at_least(Api::Gl, 3, 0) || e.ext_packed_depth_stencil {
                Ok((GL_DEPTH_STENCIL, None))
            } else {
                Err(FormatNotSupportedError)
            }
        },
    }
}

/// Outcome of resolving a client format for upload against a request: the
/// upload format code and component type code. Uploads of client data to
/// depth-class textures are not supported, and compressed client data needs
/// the block-compression extension.
pub open spec fn spec_client_format_result(
    v: Version,
    e: Extensions,
    client: ClientFormat,
    request: TextureFormatRequest,
) -> Result<(u32, u32), FormatNotSupportedError> {
    if request.spec_is_depth_class() {
        Err(FormatNotSupportedError)
    } else if client.spec_is_compressed() {
        if e.ext_texture_compression_s3tc {
            Ok((client.spec_gl_code(), GL_UNSIGNED_BYTE))
        } else {
            Err(FormatNotSupportedError)
        }
    } else {
        Ok((client.spec_gl_code(), GL_UNSIGNED_BYTE))
    }
}

/// Resolves the upload format and component type codes for client data, as
/// the external negotiation tables would.
pub fn client_format_to_glenum(
    v: &Version,
    e: &Extensions,
    client: ClientFormat,
    request: TextureFormatRequest,
) -> (r: Result<(u32, u32), FormatNotSupportedError>)
    ensures
        r == spec_client_format_result(*v, *e, client, request),
{
    if request.is_depth_class() {
        Err(FormatNotSupportedError)
    } else if client.is_compressed() {
        if e.ext_texture_compression_s3tc {
            let code = match client {
                ClientFormat::CompressedRgbS3tcDxt1 => GL_COMPRESSED_RGB_S3TC_DXT1,
                ClientFormat::CompressedRgbaS3tcDxt1 => GL_COMPRESSED_RGBA_S3TC_DXT1,
                ClientFormat::CompressedRgbaS3tcDxt3 => GL_COMPRESSED_RGBA_S3TC_DXT3,
                ClientFormat::CompressedRgbaS3tcDxt5 => GL_COMPRESSED_RGBA_S3TC_DXT5,
                _ => GL_RGBA,
            };
            Ok((code, GL_UNSIGNED_BYTE))
        } else {
            Err(FormatNotSupportedError)
        }
    } else {
        let code = match client {
            ClientFormat::U8 => GL_RED,
            ClientFormat::U8U8 => GL_RG,
            ClientFormat::U8U8U8 => GL_RGB,
            ClientFormat::U8U8U8U8 => GL_RGBA,
            _ => GL_RGBA,
        };
        Ok((code, GL_UNSIGNED_BYTE))
    }
}

/// The upload format and component type codes used when a texture is created
/// without initial data, by the class of the request.
pub open spec fn spec_default_client_codes(request: TextureFormatRequest) -> (u32, u32) {
    if request.spec_is_depth() {
        (GL_DEPTH_COMPONENT, GL_FLOAT)
    } else if request.spec_is_depth_stencil() {
        (GL_DEPTH_STENCIL, GL_UNSIGNED_INT_24_8)
    } else {
        (GL_RGBA, GL_UNSIGNED_BYTE)
    }
}

/// The upload format and component type codes used when a texture is created
/// without initial data.
pub fn default_client_codes(request: TextureFormatRequest) -> (r: (u32, u32))
    ensures
        r == spec_default_client_codes(request),
{
    match request {
        TextureFormatRequest::AnyDepth => (GL_DEPTH_COMPONENT, GL_FLOAT),
        TextureFormatRequest::Specific(TextureFormat::DepthComponent24) => (
            GL_DEPTH_COMPONENT,
            GL_FLOAT,
        ),
        TextureFormatRequest::Specific(TextureFormat::DepthComponent32) => (
            GL_DEPTH_COMPONENT,
            GL_FLOAT,
        ),
        TextureFormatRequest::AnyDepthStencil => (GL_DEPTH_STENCIL, GL_UNSIGNED_INT_24_8),
        TextureFormatRequest::Specific(TextureFormat::Depth24Stencil8) => (
            GL_DEPTH_STENCIL,
            GL_UNSIGNED_INT_24_8,
        ),
        _ => (GL_RGBA, GL_UNSIGNED_BYTE),
    }
}

/// Why a creation request was refused before any driver handle was allocated.
#[derive(Copy, Clone, Debug, PartialEq, Eq, Structural)]
pub enum TextureCreationError {
    /// The driver accepts only power-of-two extents and one extent is not one.
    DimensionsNotSupported,
    /// The format negotiation failed for the request or the client data.
    FormatNotSupported,
}

/// A sized storage format as the driver reports it back.
#[derive(Copy, Clone, Debug, PartialEq, Eq, Structural)]
pub enum InternalFormat {
    Rgba8,
    Rgb8,
    CompressedRgbS3tcDxt1,
    CompressedRgbaS3tcDxt1,
    CompressedRgbaS3tcDxt3,
    CompressedRgbaS3tcDxt5,
    DepthComponent24,
    DepthComponent32,
    Depth24Stencil8,
}

/// The driver reported a storage code the library does not recognize.
#[derive(Copy, Clone, Debug, PartialEq, Eq, Structural)]
pub enum GetFormatError {
    /// The reported code, kept for diagnostics.
    UnknownFormat(u32),
}

impl InternalFormat {
    /// Maps a driver storage code to the format it names, or `None` for a
    /// code the library does not recognize (an unsized code among them).
    pub open spec fn spec_from_code(code: u32) -> Option<InternalFormat> {
        if code == GL_RGBA8 {
            Some(InternalFormat::Rgba8)
        } else if code == GL_RGB8 {
            Some(InternalFormat::Rgb8)
        } else if code == GL_COMPRESSED_RGB_S3TC_DXT1 {
            Some(InternalFormat::CompressedRgbS3tcDxt1)
        } else if code == GL_COMPRESSED_RGBA_S3TC_DXT1 {
            Some(InternalFormat::CompressedRgbaS3tcDxt1)
        } else if code == GL_COMPRESSED_RGBA_S3TC_DXT3 {
            Some(InternalFormat::CompressedRgbaS3tcDxt3)
        } else if code == GL_COMPRESSED_RGBA_S3TC_DXT5 {
            Some(InternalFormat::CompressedRgbaS3tcDxt5)
        } else if code == GL_DEPTH_COMPONENT24 {
            Some(InternalFormat::DepthComponent24)
        } else if code == GL_DEPTH_COMPONENT32 {
            Some(InternalFormat::DepthComponent32)
        } else if code == GL_DEPTH24_STENCIL8 {
            Some(InternalFormat::Depth24Stencil8)
        } else {
            None
        }
    }

    /// Maps a driver storage code to the format it names.
    pub fn from_code(code: u32) -> (r: Option<InternalFormat>)
        ensures
            r == Self::spec_from_code(code),
    {
        if code == GL_RGBA8 {
            Some(InternalFormat::Rgba8)
        } else if code == GL_RGB8 {
            Some(InternalFormat::Rgb8)
        } else if code == GL_COMPRESSED_RGB_S3TC_DXT1 {
            Some(InternalFormat::CompressedRgbS3tcDxt1)
        } else if code == GL_COMPRESSED_RGBA_S3TC_DXT1 {
            Some(InternalFormat::CompressedRgbaS3tcDxt1)
        } else if code == GL_COMPRESSED_RGBA_S3TC_DXT3 {
            Some(InternalFormat::CompressedRgbaS3tcDxt3)
        } else if code == GL_COMPRESSED_RGBA_S3TC_DXT5 {
            Some(InternalFormat::CompressedRgbaS3tcDxt5)
        } else if code == GL_DEPTH_COMPONENT24 {
            Some(InternalFormat::DepthComponent24)
        } else if code == GL_DEPTH_COMPONENT32 {
            Some(InternalFormat::DepthComponent32)
        } else if code == GL_DEPTH24_STENCIL8 {
            Some(InternalFormat::Depth24Stencil8)
        } else {
            None
        }
    }
}

/// How many mipmap levels a creation request asks for, and whether the
/// driver is asked to generate their contents.
#[derive(Copy, Clone, Debug, PartialEq, Eq, Structural)]
pub enum MipmapsOption {
    /// The base level only.
    NoMipmap,
    /// A fixed number of levels, contents left to the caller.
    EmptyMipmaps(u32),
    /// A full chain down to one-by-one, generated by the driver.
    AutoGeneratedMipmaps,
}

impl MipmapsOption {
    /// Whether the driver is asked to generate mipmap contents.
    pub open spec fn spec_should_generate(self) -> bool {
        self is AutoGeneratedMipmaps
    }

    /// Whether the driver is asked to generate mipmap contents.
    pub fn should_generate(&self) -> (r: bool)
        ensures
            r == self.spec_should_generate(),
    {
        match *self {
            MipmapsOption::AutoGeneratedMipmaps => true,
            _ => false,
        }
    }

    /// The mipmap level count this policy resolves to over the given extents:
    /// one for none, the fixed count, or the full chain over the largest axis.
    pub open spec fn spec_num_levels(self, width: u32, height: Option<u32>, depth: Option<u32>) -> nat {
        match self {
            MipmapsOption::NoMipmap => 1nat,
            MipmapsOption::EmptyMipmaps(n) => n as nat,
            MipmapsOption::AutoGeneratedMipmaps => crate::dimensions::spec_chain_levels(
                spec_max_extent(width, height, depth),
            ),
        }
    }

    /// The mipmap level count this policy resolves to over the given extents.
    pub fn num_levels(&self, width: u32, height: Option<u32>, depth: Option<u32>) -> (r: u32)
        requires
            self matches MipmapsOption::EmptyMipmaps(n) ==> 1 <= *n <= 32,
        ensures
            r == self.spec_num_levels(width, height, depth),
            1 <= r <= 32,
    {
        match *self {
            MipmapsOption::NoMipmap => 1,
            MipmapsOption::EmptyMipmaps(n) => n,
            MipmapsOption::AutoGeneratedMipmaps => {
                let h = axis_or_one(height);
                let d = axis_or_one(depth);
                let mut m: u32 = width;
                if h > m {
                    m = h;
                }
                if d > m {
                    m = d;
                }
                assert(m == spec_max_extent(width, height, depth));
                crate::dimensions::chain_levels(m)
            },
        }
    }
}

/// The largest of the extents, absent axes counting as one.
pub open spec fn spec_max_extent(width: u32, height: Option<u32>, depth: Option<u32>) -> u32 {
    let h = spec_axis_or_one(height) as u32;
    let d = spec_axis_or_one(depth) as u32;
    let m = if h > width {
        h
    } else {
        width
    };
    if d > m {
        d
    } else {
        m
    }
}

} // verus!
