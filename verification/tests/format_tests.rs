use texture_any::context::{Api, Extensions, Version};
use texture_any::dimensions::{is_power_of_two, level_extent};
use texture_any::image_format::{
    client_format_to_glenum, default_client_codes, format_request_to_glenum, ClientFormat,
    InternalFormat, MipmapsOption, TextureFormat, TextureFormatRequest, GL_DEPTH_COMPONENT,
    GL_DEPTH_STENCIL, GL_FLOAT, GL_RGBA, GL_UNSIGNED_BYTE, GL_UNSIGNED_INT_24_8,
};
use texture_any::texture::select_pack_alignment;

fn all_extensions() -> Extensions {
    Extensions {
        arb_texture_non_power_of_two: true,
        arb_texture_storage: true,
        arb_texture_multisample: true,
        ext_framebuffer_object: true,
        ext_texture_compression_s3tc: true,
        ext_packed_depth_stencil: true,
    }
}

fn no_extensions() -> Extensions {
    Extensions {
        arb_texture_non_power_of_two: false,
        arb_texture_storage: false,
        arb_texture_multisample: false,
        ext_framebuffer_object: false,
        ext_texture_compression_s3tc: false,
        ext_packed_depth_stencil: false,
    }
}

fn gl(major: u32, minor: u32) -> Version {
    Version { api: Api::Gl, major, minor }
}

#[test]
fn buffer_size_uncompressed_rgba() {
    let size = ClientFormat::U8U8U8U8.checked_buffer_size(4, Some(4), None, None);
    assert_eq!(size, Some(64));
}

#[test]
fn buffer_size_uncompressed_single_channel() {
    let size = ClientFormat::U8.checked_buffer_size(3, Some(3), None, None);
    assert_eq!(size, Some(9));
}

#[test]
fn buffer_size_with_array_layers() {
    let size = ClientFormat::U8U8U8U8.checked_buffer_size(4, None, None, Some(3));
    assert_eq!(size, Some(48));
}

#[test]
fn buffer_size_compressed_whole_blocks() {
    // An 8 by 8 image is four 4x4 blocks of eight bytes each.
    let size = ClientFormat::CompressedRgbaS3tcDxt1.checked_buffer_size(8, Some(8), None, None);
    assert_eq!(size, Some(32));
}

#[test]
fn buffer_size_compressed_partial_blocks() {
    // A 5 by 5 image rounds up to two blocks per axis, sixteen bytes each.
    let size = ClientFormat::CompressedRgbaS3tcDxt5.checked_buffer_size(5, Some(5), None, None);
    assert_eq!(size, Some(64));
}

#[test]
fn buffer_size_zero_axis_is_zero() {
    let size = ClientFormat::U8U8U8U8.checked_buffer_size(0, Some(4), None, None);
    assert_eq!(size, Some(0));
}

#[test]
fn compressed_code_mapping_round_trip() {
    let formats = [
        ClientFormat::CompressedRgbS3tcDxt1,
        ClientFormat::CompressedRgbaS3tcDxt1,
        ClientFormat::CompressedRgbaS3tcDxt3,
        ClientFormat::CompressedRgbaS3tcDxt5,
    ];
    let codes = [0x83F0u32, 0x83F1, 0x83F2, 0x83F3];
    for k in 0..4 {
        assert_eq!(ClientFormat::from_internal_compressed_format(codes[k]), Some(formats[k]));
    }
    assert_eq!(ClientFormat::from_internal_compressed_format(0x8058), None);
}

#[test]
fn negotiation_specific_format_gives_storage_code() {
    let r = format_request_to_glenum(
        &gl(4, 5),
        &all_extensions(),
        None,
        TextureFormatRequest::Specific(TextureFormat::Rgba8),
    );
    assert_eq!(r, Ok((0x8058, Some(0x8058))));
}

#[test]
fn negotiation_any_gives_no_storage_code() {
    let r = format_request_to_glenum(&gl(4, 5), &all_extensions(), None, TextureFormatRequest::Any);
    assert_eq!(r, Ok((GL_RGBA, None)));
}

#[test]
fn negotiation_compressed_needs_extension() {
    let r = format_request_to_glenum(
        &gl(4, 5),
        &no_extensions(),
        None,
        TextureFormatRequest::Specific(TextureFormat::CompressedRgbaS3tcDxt5),
    );
    assert!(r.is_err());
}

#[test]
fn negotiation_depth_stencil_needs_version_or_extension() {
    let req = TextureFormatRequest::AnyDepthStencil;
    assert!(format_request_to_glenum(&gl(2, 1), &no_extensions(), None, req).is_err());
    assert_eq!(
        format_request_to_glenum(&gl(3, 0), &no_extensions(), None, req),
        Ok((GL_DEPTH_STENCIL, None))
    );
    let mut e = no_extensions();
    e.ext_packed_depth_stencil = true;
    assert_eq!(format_request_to_glenum(&gl(2, 1), &e, None, req), Ok((GL_DEPTH_STENCIL, None)));
}

#[test]
fn client_format_upload_codes() {
    let r = client_format_to_glenum(
        &gl(4, 5),
        &all_extensions(),
        ClientFormat::U8U8U8U8,
        TextureFormatRequest::Any,
    );
    assert_eq!(r, Ok((GL_RGBA, GL_UNSIGNED_BYTE)));
}

#[test]
fn client_format_to_depth_request_is_refused() {
    let r = client_format_to_glenum(
        &gl(4, 5),
        &all_extensions(),
        ClientFormat::U8U8U8U8,
        TextureFormatRequest::AnyDepth,
    );
    assert!(r.is_err());
}

#[test]
fn default_client_codes_by_request_class() {
    assert_eq!(
        default_client_codes(TextureFormatRequest::AnyDepth),
        (GL_DEPTH_COMPONENT, GL_FLOAT)
    );
    assert_eq!(
        default_client_codes(TextureFormatRequest::AnyDepthStencil),
        (GL_DEPTH_STENCIL, GL_UNSIGNED_INT_24_8)
    );
    assert_eq!(
        default_client_codes(TextureFormatRequest::Any),
        (GL_RGBA, GL_UNSIGNED_BYTE)
    );
}

#[test]
fn internal_format_from_code_table() {
    assert_eq!(InternalFormat::from_code(0x8058), Some(InternalFormat::Rgba8));
    assert_eq!(InternalFormat::from_code(0x8051), Some(InternalFormat::Rgb8));
    assert_eq!(InternalFormat::from_code(0x83F3), Some(InternalFormat::CompressedRgbaS3tcDxt5));
    assert_eq!(InternalFormat::from_code(GL_RGBA), None);
}

#[test]
fn mipmap_level_counts() {
    assert_eq!(MipmapsOption::NoMipmap.num_levels(256, Some(256), None), 1);
    assert_eq!(MipmapsOption::EmptyMipmaps(5).num_levels(256, Some(256), None), 5);
    assert_eq!(MipmapsOption::AutoGeneratedMipmaps.num_levels(4, Some(4), None), 3);
    assert_eq!(MipmapsOption::AutoGeneratedMipmaps.num_levels(5, Some(5), None), 3);
    assert_eq!(MipmapsOption::AutoGeneratedMipmaps.num_levels(1, Some(1), None), 1);
    assert_eq!(MipmapsOption::AutoGeneratedMipmaps.num_levels(0, None, None), 1);
    assert_eq!(
        MipmapsOption::AutoGeneratedMipmaps.num_levels(0xFFFF_FFFF, Some(1), None),
        32
    );
}

#[test]
fn power_of_two_and_level_extents() {
    assert!(is_power_of_two(1));
    assert!(is_power_of_two(64));
    assert!(!is_power_of_two(0));
    assert!(!is_power_of_two(12));
    assert_eq!(level_extent(4, 0), 4);
    assert_eq!(level_extent(4, 1), 2);
    assert_eq!(level_extent(4, 2), 1);
    assert_eq!(level_extent(4, 3), 1);
    assert_eq!(level_extent(0, 0), 1);
}

#[test]
fn pack_alignment_selection() {
    // An eight-aligned buffer keeps the current alignment.
    assert_eq!(select_pack_alignment(16, 8), 8);
    assert_eq!(select_pack_alignment(0, 2), 2);
    // A four-aligned buffer steps to four when the current differs.
    assert_eq!(select_pack_alignment(4, 8), 4);
    // A two-aligned buffer steps down from a wider alignment.
    assert_eq!(select_pack_alignment(2, 4), 2);
    // An odd address forces byte alignment.
    assert_eq!(select_pack_alignment(1, 4), 1);
    assert_eq!(select_pack_alignment(1, 1), 1);
}
