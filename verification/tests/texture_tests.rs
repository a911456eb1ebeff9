use texture_any::context::{Api, DeviceContext, Extensions, Version};
use texture_any::dimensions::{
    Dimensions, TEXTURE_1D, TEXTURE_1D_ARRAY, TEXTURE_2D, TEXTURE_2D_ARRAY,
    TEXTURE_2D_MULTISAMPLE, TEXTURE_2D_MULTISAMPLE_ARRAY, TEXTURE_3D,
};
use texture_any::image_format::{
    ClientFormat, GetFormatError, InternalFormat, MipmapsOption, TextureCreationError,
    TextureFormat, TextureFormatRequest,
};
use texture_any::texture::{
    new_texture, try_new_texture, CreationViolation, UploadViolation,
};

fn all_extensions() -> Extensions {
    Extensions {
        arb_texture_non_power_of_two: true,
        arb_texture_storage: true,
        arb_texture_multisample: true,
        ext_framebuffer_object: true,
        ext_texture_compression_s3tc: true,
        ext_packed_depth_stencil: true,
    }
}

fn no_extensions() -> Extensions {
    Extensions {
        arb_texture_non_power_of_two: false,
        arb_texture_storage: false,
        arb_texture_multisample: false,
        ext_framebuffer_object: false,
        ext_texture_compression_s3tc: false,
        ext_packed_depth_stencil: false,
    }
}

fn modern_context() -> DeviceContext {
    DeviceContext::new(Version { api: Api::Gl, major: 4, minor: 5 }, all_extensions(), 4)
}

fn legacy_context() -> DeviceContext {
    DeviceContext::new(Version { api: Api::Gl, major: 1, minor: 5 }, no_extensions(), 4)
}

fn pattern(n: usize, start: u8) -> Vec<u8> {
    let mut v = Vec::new();
    for k in 0..n {
        v.push(start.wrapping_add(k as u8));
    }
    v
}

#[test]
fn two_by_two_upload_read_round_trip() {
    let mut ctxt = modern_context();
    let data = pattern(16, 10);
    let t = new_texture(
        &mut ctxt,
        TextureFormatRequest::Specific(TextureFormat::Rgba8),
        Some((ClientFormat::U8U8U8U8, data.clone())),
        MipmapsOption::NoMipmap,
        Dimensions::Texture2d { width: 2, height: 2 },
    )
    .unwrap();
    let view = t.mipmap(0, 0).unwrap();
    let img = view.read(&mut ctxt);
    assert_eq!(img.width, 2);
    assert_eq!(img.height, 2);
    assert_eq!(img.data, data);
}

#[test]
fn four_by_four_auto_mipmap_scenario() {
    let mut ctxt = modern_context();
    let data = pattern(64, 0);
    let t = new_texture(
        &mut ctxt,
        TextureFormatRequest::Specific(TextureFormat::Rgba8),
        Some((ClientFormat::U8U8U8U8, data)),
        MipmapsOption::AutoGeneratedMipmaps,
        Dimensions::Texture2d { width: 4, height: 4 },
    )
    .unwrap();
    assert_eq!(t.get_mipmap_levels(), 3);
    let base = t.mipmap(0, 0).unwrap();
    assert_eq!(base.get_width(), 4);
    assert_eq!(base.get_height(), Some(4));
    let tip = t.mipmap(0, 2).unwrap();
    assert_eq!(tip.get_width(), 1);
    assert_eq!(tip.get_height(), Some(1));
    assert_eq!(ctxt.mipmap_generations, 1);
}

#[test]
fn mipmap_out_of_range_gives_none() {
    let mut ctxt = modern_context();
    let t = new_texture(
        &mut ctxt,
        TextureFormatRequest::Specific(TextureFormat::Rgba8),
        None,
        MipmapsOption::AutoGeneratedMipmaps,
        Dimensions::Texture2d { width: 4, height: 4 },
    )
    .unwrap();
    assert!(t.mipmap(0, 3).is_none());
    assert!(t.mipmap(1, 0).is_none());
    assert!(t.mipmap(0, 2).is_some());
}

#[test]
fn array_texture_layer_bounds() {
    let mut ctxt = modern_context();
    let t = new_texture(
        &mut ctxt,
        TextureFormatRequest::Specific(TextureFormat::Rgba8),
        None,
        MipmapsOption::NoMipmap,
        Dimensions::Texture2dArray { width: 4, height: 4, array_size: 3 },
    )
    .unwrap();
    assert!(t.mipmap(2, 0).is_some());
    assert!(t.mipmap(3, 0).is_none());
    assert_eq!(t.get_array_size(), Some(3));
    assert_eq!(t.get_depth(), None);
}

#[test]
fn one_dimensional_array_reads_one_layer() {
    let mut ctxt = modern_context();
    // Three layers of four pixels each, laid out layer after layer.
    let data = pattern(48, 0);
    let t = new_texture(
        &mut ctxt,
        TextureFormatRequest::Specific(TextureFormat::Rgba8),
        Some((ClientFormat::U8U8U8U8, data.clone())),
        MipmapsOption::NoMipmap,
        Dimensions::Texture1dArray { width: 4, array_size: 3 },
    )
    .unwrap();
    let view = t.mipmap(2, 0).unwrap();
    let img = view.read(&mut ctxt);
    assert_eq!(img.width, 4);
    assert_eq!(img.height, 1);
    assert_eq!(img.data, data[32..48].to_vec());
}

#[test]
fn three_dimensional_first_slice_read() {
    let mut ctxt = modern_context();
    let data = pattern(32, 100);
    let t = new_texture(
        &mut ctxt,
        TextureFormatRequest::Specific(TextureFormat::Rgba8),
        Some((ClientFormat::U8U8U8U8, data.clone())),
        MipmapsOption::NoMipmap,
        Dimensions::Texture3d { width: 2, height: 2, depth: 2 },
    )
    .unwrap();
    let view = t.mipmap(0, 0).unwrap();
    let img = view.read(&mut ctxt);
    assert_eq!(img.width, 2);
    assert_eq!(img.height, 2);
    assert_eq!(img.data, data[0..16].to_vec());
}

#[test]
fn sub_region_upload_changes_only_its_rectangle() {
    let mut ctxt = modern_context();
    let initial = pattern(64, 0);
    let t = new_texture(
        &mut ctxt,
        TextureFormatRequest::Specific(TextureFormat::Rgba8),
        Some((ClientFormat::U8U8U8U8, initial.clone())),
        MipmapsOption::NoMipmap,
        Dimensions::Texture2d { width: 4, height: 4 },
    )
    .unwrap();
    let patch = pattern(16, 200);
    let view = t.mipmap(0, 0).unwrap();
    let r = view.upload_texture(
        &mut ctxt,
        1,
        1,
        0,
        ClientFormat::U8U8U8U8,
        &patch,
        2,
        Some(2),
        None,
        false,
    );
    assert_eq!(r, Ok(()));
    let img = view.read(&mut ctxt);
    let mut expected = initial.clone();
    for j in 0..2usize {
        for i in 0..2usize {
            for c in 0..4usize {
                expected[4 * ((j + 1) * 4 + (i + 1)) + c] = patch[4 * (j * 2 + i) + c];
            }
        }
    }
    assert_eq!(img.data, expected);
}

#[test]
fn upload_expands_missing_components() {
    let mut ctxt = modern_context();
    let t = new_texture(
        &mut ctxt,
        TextureFormatRequest::Specific(TextureFormat::Rgba8),
        None,
        MipmapsOption::NoMipmap,
        Dimensions::Texture2d { width: 1, height: 1 },
    )
    .unwrap();
    let view = t.mipmap(0, 0).unwrap();
    let one = vec![17u8];
    let r = view.upload_texture(
        &mut ctxt,
        0,
        0,
        0,
        ClientFormat::U8,
        &one,
        1,
        Some(1),
        None,
        false,
    );
    assert_eq!(r, Ok(()));
    let img = view.read(&mut ctxt);
    assert_eq!(img.data, vec![17, 0, 0, 255]);
}

#[test]
fn regenerate_outside_base_level_is_rejected() {
    let mut ctxt = modern_context();
    let t = new_texture(
        &mut ctxt,
        TextureFormatRequest::Specific(TextureFormat::Rgba8),
        None,
        MipmapsOption::AutoGeneratedMipmaps,
        Dimensions::Texture2d { width: 4, height: 4 },
    )
    .unwrap();
    let view = t.mipmap(0, 1).unwrap();
    let data = pattern(16, 0);
    let r = view.try_upload_texture(
        &mut ctxt,
        0,
        0,
        0,
        ClientFormat::U8U8U8U8,
        &data,
        2,
        Some(2),
        None,
        true,
    );
    assert_eq!(r, Err(UploadViolation::RegenerateOutsideBaseLevel));
}

#[test]
fn regeneration_skipped_silently_when_not_applicable() {
    let mut ctxt = modern_context();
    // A single-level texture: regeneration is requested but skipped.
    let t = new_texture(
        &mut ctxt,
        TextureFormatRequest::Specific(TextureFormat::Rgba8),
        None,
        MipmapsOption::NoMipmap,
        Dimensions::Texture2d { width: 4, height: 4 },
    )
    .unwrap();
    let view = t.mipmap(0, 0).unwrap();
    let data = pattern(64, 0);
    let r = view.upload_texture(
        &mut ctxt,
        0,
        0,
        0,
        ClientFormat::U8U8U8U8,
        &data,
        4,
        Some(4),
        None,
        true,
    );
    assert_eq!(r, Ok(()));
    assert_eq!(ctxt.mipmap_generations, 0);
}

#[test]
fn upload_out_of_bounds_is_rejected() {
    let mut ctxt = modern_context();
    let t = new_texture(
        &mut ctxt,
        TextureFormatRequest::Specific(TextureFormat::Rgba8),
        None,
        MipmapsOption::NoMipmap,
        Dimensions::Texture2d { width: 4, height: 4 },
    )
    .unwrap();
    let view = t.mipmap(0, 0).unwrap();
    let data = pattern(16, 0);
    let r = view.try_upload_texture(
        &mut ctxt,
        3,
        3,
        0,
        ClientFormat::U8U8U8U8,
        &data,
        2,
        Some(2),
        None,
        false,
    );
    assert_eq!(r, Err(UploadViolation::RegionOutOfBounds));
}

#[test]
fn upload_wrong_data_size_is_rejected() {
    let mut ctxt = modern_context();
    let t = new_texture(
        &mut ctxt,
        TextureFormatRequest::Specific(TextureFormat::Rgba8),
        None,
        MipmapsOption::NoMipmap,
        Dimensions::Texture2d { width: 4, height: 4 },
    )
    .unwrap();
    let view = t.mipmap(0, 0).unwrap();
    let data = pattern(15, 0);
    let r = view.try_upload_texture(
        &mut ctxt,
        0,
        0,
        0,
        ClientFormat::U8U8U8U8,
        &data,
        2,
        Some(2),
        None,
        false,
    );
    assert_eq!(r, Err(UploadViolation::DataSizeMismatch));
}

#[test]
fn three_dimensional_sub_upload_fails_loudly() {
    let mut ctxt = modern_context();
    let t = new_texture(
        &mut ctxt,
        TextureFormatRequest::Specific(TextureFormat::Rgba8),
        None,
        MipmapsOption::NoMipmap,
        Dimensions::Texture3d { width: 2, height: 2, depth: 2 },
    )
    .unwrap();
    let view = t.mipmap(0, 0).unwrap();
    let data = pattern(16, 0);
    let r = view.try_upload_texture(
        &mut ctxt,
        0,
        0,
        0,
        ClientFormat::U8U8U8U8,
        &data,
        2,
        Some(2),
        None,
        false,
    );
    assert_eq!(r, Err(UploadViolation::UnsupportedShape));
}

#[test]
fn multisample_with_initial_data_never_reaches_the_driver() {
    let mut ctxt = modern_context();
    let data = pattern(256, 0);
    let r = try_new_texture(
        &mut ctxt,
        TextureFormatRequest::Specific(TextureFormat::Rgba8),
        Some((ClientFormat::U8U8U8U8, data)),
        MipmapsOption::NoMipmap,
        Dimensions::Texture2dMultisample { width: 8, height: 8, samples: 4 },
    );
    assert!(matches!(r, Err(CreationViolation::MultisampleWithData)));
    assert_eq!(ctxt.textures.len(), 0);
    assert_eq!(ctxt.bind_calls, 0);
}

#[test]
fn multisample_without_data_succeeds() {
    let mut ctxt = modern_context();
    let t = new_texture(
        &mut ctxt,
        TextureFormatRequest::Specific(TextureFormat::Rgba8),
        None,
        MipmapsOption::NoMipmap,
        Dimensions::Texture2dMultisample { width: 8, height: 8, samples: 4 },
    )
    .unwrap();
    assert_eq!(t.get_width(), 8);
    assert_eq!(t.get_height(), Some(8));
    assert_eq!(t.get_texture_type(), Dimensions::Texture2dMultisample {
        width: 8,
        height: 8,
        samples: 4,
    });
}

#[test]
fn creation_data_size_mismatch_is_a_violation() {
    let mut ctxt = modern_context();
    let data = pattern(63, 0);
    let r = try_new_texture(
        &mut ctxt,
        TextureFormatRequest::Specific(TextureFormat::Rgba8),
        Some((ClientFormat::U8U8U8U8, data)),
        MipmapsOption::NoMipmap,
        Dimensions::Texture2d { width: 4, height: 4 },
    );
    assert!(matches!(r, Err(CreationViolation::DataSizeMismatch)));
    assert_eq!(ctxt.textures.len(), 0);
}

#[test]
fn zero_width_texture_is_a_valid_empty_allocation() {
    let mut ctxt = modern_context();
    let t = new_texture(
        &mut ctxt,
        TextureFormatRequest::Specific(TextureFormat::Rgba8),
        Some((ClientFormat::U8U8U8U8, Vec::new())),
        MipmapsOption::NoMipmap,
        Dimensions::Texture2d { width: 0, height: 4 },
    )
    .unwrap();
    assert_eq!(t.get_width(), 0);
    assert_eq!(t.get_height(), Some(4));
    assert_eq!(t.get_mipmap_levels(), 1);
}

#[test]
fn legacy_driver_refuses_non_power_of_two() {
    let mut ctxt = legacy_context();
    let r = new_texture(
        &mut ctxt,
        TextureFormatRequest::Specific(TextureFormat::Rgba8),
        None,
        MipmapsOption::NoMipmap,
        Dimensions::Texture2d { width: 3, height: 4 },
    );
    assert_eq!(r.err(), Some(TextureCreationError::DimensionsNotSupported));
    assert_eq!(ctxt.textures.len(), 0);
}

#[test]
fn legacy_driver_accepts_powers_of_two() {
    let mut ctxt = legacy_context();
    let r = new_texture(
        &mut ctxt,
        TextureFormatRequest::Specific(TextureFormat::Rgba8),
        None,
        MipmapsOption::NoMipmap,
        Dimensions::Texture2d { width: 4, height: 4 },
    );
    assert!(r.is_ok());
}

#[test]
fn unsupported_format_is_reported_before_allocation() {
    let mut ctxt = DeviceContext::new(
        Version { api: Api::Gl, major: 4, minor: 5 },
        no_extensions(),
        4,
    );
    let r = new_texture(
        &mut ctxt,
        TextureFormatRequest::Specific(TextureFormat::CompressedRgbaS3tcDxt5),
        None,
        MipmapsOption::NoMipmap,
        Dimensions::Texture2d { width: 4, height: 4 },
    );
    assert_eq!(r.err(), Some(TextureCreationError::FormatNotSupported));
    assert_eq!(ctxt.textures.len(), 0);
}

#[test]
fn internal_format_query_is_memoized() {
    let mut ctxt = modern_context();
    let mut t = new_texture(
        &mut ctxt,
        TextureFormatRequest::Specific(TextureFormat::Rgba8),
        None,
        MipmapsOption::NoMipmap,
        Dimensions::Texture2d { width: 4, height: 4 },
    )
    .unwrap();
    assert_eq!(ctxt.format_queries, 0);
    let first = t.get_internal_format(&mut ctxt);
    assert_eq!(first, Ok(InternalFormat::Rgba8));
    assert_eq!(ctxt.format_queries, 1);
    let second = t.get_internal_format(&mut ctxt);
    assert_eq!(second, first);
    assert_eq!(ctxt.format_queries, 1);
}

#[test]
fn internal_format_failure_is_cached_too() {
    let mut ctxt = modern_context();
    // An unsized request takes the legacy image path, whose storage code
    // the library does not map back to a sized format.
    let mut t = new_texture(
        &mut ctxt,
        TextureFormatRequest::Any,
        None,
        MipmapsOption::NoMipmap,
        Dimensions::Texture2d { width: 4, height: 4 },
    )
    .unwrap();
    let first = t.get_internal_format(&mut ctxt);
    assert_eq!(first, Err(GetFormatError::UnknownFormat(0x1908)));
    let second = t.get_internal_format(&mut ctxt);
    assert_eq!(second, first);
    assert_eq!(ctxt.format_queries, 1);
}

#[test]
fn download_compressed_on_uncompressed_texture_is_none() {
    let mut ctxt = modern_context();
    let t = new_texture(
        &mut ctxt,
        TextureFormatRequest::Specific(TextureFormat::Rgba8),
        Some((ClientFormat::U8U8U8U8, pattern(64, 0))),
        MipmapsOption::NoMipmap,
        Dimensions::Texture2d { width: 4, height: 4 },
    )
    .unwrap();
    let view = t.mipmap(0, 0).unwrap();
    assert_eq!(view.download_compressed_data(&mut ctxt, 0), None);
}

#[test]
fn compressed_data_round_trips_through_download() {
    let mut ctxt = modern_context();
    // One 4x4 block of eight bytes.
    let blob = pattern(8, 40);
    let t = new_texture(
        &mut ctxt,
        TextureFormatRequest::Specific(TextureFormat::CompressedRgbaS3tcDxt1),
        Some((ClientFormat::CompressedRgbaS3tcDxt1, blob.clone())),
        MipmapsOption::NoMipmap,
        Dimensions::Texture2d { width: 4, height: 4 },
    )
    .unwrap();
    let view = t.mipmap(0, 0).unwrap();
    let r = view.download_compressed_data(&mut ctxt, 8);
    assert_eq!(r, Some((ClientFormat::CompressedRgbaS3tcDxt1, blob)));
}

#[test]
fn redundant_binds_are_elided_by_the_shadow() {
    let mut ctxt = modern_context();
    let t = new_texture(
        &mut ctxt,
        TextureFormatRequest::Specific(TextureFormat::Rgba8),
        None,
        MipmapsOption::NoMipmap,
        Dimensions::Texture2d { width: 4, height: 4 },
    )
    .unwrap();
    assert_eq!(ctxt.bind_calls, 1);
    let view = t.mipmap(0, 0).unwrap();
    let data = pattern(64, 0);
    view.upload_texture(
        &mut ctxt,
        0,
        0,
        0,
        ClientFormat::U8U8U8U8,
        &data,
        4,
        Some(4),
        None,
        false,
    )
    .unwrap();
    // The texture was already bound by creation: no second driver bind.
    assert_eq!(ctxt.bind_calls, 1);
}

#[test]
fn destruction_detaches_clears_and_releases_in_order() {
    let mut ctxt = modern_context();
    let t = new_texture(
        &mut ctxt,
        TextureFormatRequest::Specific(TextureFormat::Rgba8),
        None,
        MipmapsOption::NoMipmap,
        Dimensions::Texture2d { width: 4, height: 4 },
    )
    .unwrap();
    let id = t.get_id();
    {
        let view = t.mipmap(0, 0).unwrap();
        view.read(&mut ctxt);
    }
    assert_eq!(ctxt.attachments.len(), 1);
    assert_eq!(ctxt.texture_units[0], id);
    t.destroy(&mut ctxt);
    assert_eq!(ctxt.attachments.len(), 0);
    assert_eq!(ctxt.texture_units[0], 0);
    // The name is gone; a new texture gets a fresh name.
    let t2 = new_texture(
        &mut ctxt,
        TextureFormatRequest::Specific(TextureFormat::Rgba8),
        None,
        MipmapsOption::NoMipmap,
        Dimensions::Texture2d { width: 2, height: 2 },
    )
    .unwrap();
    assert_ne!(t2.get_id(), id);
}

#[test]
fn read_to_pixel_buffer_sizes_and_content() {
    let mut ctxt = modern_context();
    let data = pattern(16, 7);
    let t = new_texture(
        &mut ctxt,
        TextureFormatRequest::Specific(TextureFormat::Rgba8),
        Some((ClientFormat::U8U8U8U8, data.clone())),
        MipmapsOption::NoMipmap,
        Dimensions::Texture2d { width: 2, height: 2 },
    )
    .unwrap();
    let view = t.mipmap(0, 0).unwrap();
    let pb = view.read_to_pixel_buffer(&mut ctxt);
    assert_eq!(pb.size, 16);
    assert_eq!(pb.data, data);
}

#[test]
fn accessors_report_absent_axes_as_none() {
    let mut ctxt = modern_context();
    let t = new_texture(
        &mut ctxt,
        TextureFormatRequest::Specific(TextureFormat::Rgba8),
        None,
        MipmapsOption::NoMipmap,
        Dimensions::Texture1d { width: 16 },
    )
    .unwrap();
    assert_eq!(t.get_width(), 16);
    assert_eq!(t.get_height(), None);
    assert_eq!(t.get_depth(), None);
    assert_eq!(t.get_array_size(), None);
    let view = t.mipmap(0, 0).unwrap();
    assert_eq!(view.get_layer(), 0);
    assert_eq!(view.get_level(), 0);
    assert_eq!(view.get_height(), None);
}

#[test]
fn storage_path_allocates_the_whole_chain_up_front() {
    let mut ctxt = modern_context();
    let t = new_texture(
        &mut ctxt,
        TextureFormatRequest::Specific(TextureFormat::Rgba8),
        None,
        MipmapsOption::EmptyMipmaps(3),
        Dimensions::Texture2d { width: 4, height: 4 },
    )
    .unwrap();
    assert_eq!(t.get_mipmap_levels(), 3);
    let st = ctxt.textures[0].as_ref().unwrap();
    assert!(st.immutable);
    assert_eq!(st.levels.len(), 3);
}

#[test]
fn legacy_path_allocates_the_base_level_only() {
    let mut ctxt = DeviceContext::new(
        Version { api: Api::Gl, major: 2, minor: 1 },
        no_extensions(),
        4,
    );
    let t = new_texture(
        &mut ctxt,
        TextureFormatRequest::Specific(TextureFormat::Rgba8),
        None,
        MipmapsOption::EmptyMipmaps(3),
        Dimensions::Texture2d { width: 4, height: 4 },
    )
    .unwrap();
    assert_eq!(t.get_mipmap_levels(), 3);
    {
        let st = ctxt.textures[0].as_ref().unwrap();
        assert!(!st.immutable);
        assert_eq!(st.levels.len(), 1);
    }
    // A level the legacy allocation never created cannot be written.
    let view = t.mipmap(0, 1).unwrap();
    let data = pattern(16, 0);
    let r = view.try_upload_texture(
        &mut ctxt,
        0,
        0,
        0,
        ClientFormat::U8U8U8U8,
        &data,
        2,
        Some(2),
        None,
        false,
    );
    assert_eq!(r, Err(UploadViolation::LevelNotAllocated));
}

#[test]
fn depth_class_never_generates_mipmaps() {
    let mut ctxt = modern_context();
    let t = new_texture(
        &mut ctxt,
        TextureFormatRequest::Specific(TextureFormat::DepthComponent24),
        None,
        MipmapsOption::AutoGeneratedMipmaps,
        Dimensions::Texture2d { width: 4, height: 4 },
    )
    .unwrap();
    assert_eq!(t.get_mipmap_levels(), 3);
    assert_eq!(ctxt.mipmap_generations, 0);
}

#[test]
fn invalid_fixed_level_count_is_a_violation() {
    let mut ctxt = modern_context();
    let r = try_new_texture(
        &mut ctxt,
        TextureFormatRequest::Specific(TextureFormat::Rgba8),
        None,
        MipmapsOption::EmptyMipmaps(0),
        Dimensions::Texture2d { width: 4, height: 4 },
    );
    assert!(matches!(r, Err(CreationViolation::InvalidLevelCount)));
    let r = try_new_texture(
        &mut ctxt,
        TextureFormatRequest::Specific(TextureFormat::Rgba8),
        None,
        MipmapsOption::EmptyMipmaps(33),
        Dimensions::Texture2d { width: 4, height: 4 },
    );
    assert!(matches!(r, Err(CreationViolation::InvalidLevelCount)));
}

#[test]
fn multisample_without_driver_support_is_a_violation() {
    let mut ctxt = DeviceContext::new(
        Version { api: Api::Gl, major: 3, minor: 0 },
        no_extensions(),
        4,
    );
    let r = try_new_texture(
        &mut ctxt,
        TextureFormatRequest::Specific(TextureFormat::Rgba8),
        None,
        MipmapsOption::NoMipmap,
        Dimensions::Texture2dMultisample { width: 8, height: 8, samples: 4 },
    );
    assert!(matches!(r, Err(CreationViolation::MissingDriverSupport)));
    assert_eq!(ctxt.textures.len(), 0);
}

#[test]
fn valid_request_through_the_checked_front_door() {
    let mut ctxt = modern_context();
    let r = try_new_texture(
        &mut ctxt,
        TextureFormatRequest::Specific(TextureFormat::Rgba8),
        None,
        MipmapsOption::NoMipmap,
        Dimensions::Texture2d { width: 4, height: 4 },
    );
    let t = r.unwrap().unwrap();
    assert_eq!(t.get_mipmap_levels(), 1);
    assert_eq!(ctxt.textures.len(), 1);
}

#[test]
fn bind_target_codes_by_shape_class() {
    assert_eq!(Dimensions::Texture1d { width: 1 }.bind_point(), TEXTURE_1D);
    assert_eq!(Dimensions::Texture1dArray { width: 1, array_size: 1 }.bind_point(), TEXTURE_1D_ARRAY);
    assert_eq!(Dimensions::Texture2d { width: 1, height: 1 }.bind_point(), TEXTURE_2D);
    assert_eq!(
        Dimensions::Texture2dArray { width: 1, height: 1, array_size: 1 }.bind_point(),
        TEXTURE_2D_ARRAY
    );
    assert_eq!(
        Dimensions::Texture2dMultisample { width: 1, height: 1, samples: 2 }.bind_point(),
        TEXTURE_2D_MULTISAMPLE
    );
    assert_eq!(
        Dimensions::Texture2dMultisampleArray { width: 1, height: 1, array_size: 1, samples: 2 }
            .bind_point(),
        TEXTURE_2D_MULTISAMPLE_ARRAY
    );
    assert_eq!(Dimensions::Texture3d { width: 1, height: 1, depth: 1 }.bind_point(), TEXTURE_3D);
}

#[test]
fn zero_axis_passes_the_legacy_extent_check() {
    // A zero axis is a valid empty allocation even where the driver refuses
    // non-power-of-two extents.
    let mut ctxt = legacy_context();
    let t = new_texture(
        &mut ctxt,
        TextureFormatRequest::Specific(TextureFormat::Rgba8),
        Some((ClientFormat::U8U8U8U8, Vec::new())),
        MipmapsOption::NoMipmap,
        Dimensions::Texture2d { width: 0, height: 4 },
    )
    .unwrap();
    assert_eq!(t.get_width(), 0);
    assert_eq!(t.get_height(), Some(4));
}

#[test]
fn regenerate_outside_base_level_is_rejected_even_when_ineffective() {
    let mut ctxt = modern_context();
    // Fixed levels without auto-generation: regeneration would be skipped,
    // but asking for it at a non-base level is still a caller bug.
    let t = new_texture(
        &mut ctxt,
        TextureFormatRequest::Specific(TextureFormat::Rgba8),
        None,
        MipmapsOption::EmptyMipmaps(2),
        Dimensions::Texture2d { width: 4, height: 4 },
    )
    .unwrap();
    let view = t.mipmap(0, 1).unwrap();
    let data = pattern(16, 0);
    let r = view.try_upload_texture(
        &mut ctxt,
        0,
        0,
        0,
        ClientFormat::U8U8U8U8,
        &data,
        2,
        Some(2),
        None,
        true,
    );
    assert_eq!(r, Err(UploadViolation::RegenerateOutsideBaseLevel));
}

#[test]
fn compressed_download_steps_the_pack_alignment_down() {
    let mut ctxt = modern_context();
    let blob = pattern(8, 40);
    let t = new_texture(
        &mut ctxt,
        TextureFormatRequest::Specific(TextureFormat::CompressedRgbaS3tcDxt1),
        Some((ClientFormat::CompressedRgbaS3tcDxt1, blob.clone())),
        MipmapsOption::NoMipmap,
        Dimensions::Texture2d { width: 4, height: 4 },
    )
    .unwrap();
    let view = t.mipmap(0, 0).unwrap();
    // A fresh context starts at alignment four; a two-aligned destination
    // steps it down to two.
    assert_eq!(ctxt.pixel_store_pack_alignment, 4);
    let r = view.download_compressed_data(&mut ctxt, 2);
    assert_eq!(r, Some((ClientFormat::CompressedRgbaS3tcDxt1, blob)));
    assert_eq!(ctxt.pixel_store_pack_alignment, 2);
    // An eight-aligned destination leaves the alignment as it stands.
    view.download_compressed_data(&mut ctxt, 16);
    assert_eq!(ctxt.pixel_store_pack_alignment, 2);
}
