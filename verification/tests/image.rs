use ash::vk;
use screen_13::driver::image::{
    Extent2, Extent3, Image, ImageCreateInfo, ImageInfo, ImageInfoBuilder, ImageSubresource,
    ImageSubresourceRange, ImageType, ImageViewInfo, SampleCount, IMAGE_ASPECT_COLOR,
    IMAGE_CREATE_CUBE_COMPATIBLE, IMAGE_TILING_OPTIMAL, IMAGE_USAGE_COLOR_ATTACHMENT,
    IMAGE_USAGE_DEPTH_STENCIL_ATTACHMENT, REMAINING_ARRAY_LAYERS, REMAINING_MIP_LEVELS,
};

const R8G8B8A8_UNORM: i32 = 37;

fn extent(x: u32, y: u32, z: u32) -> Extent3 {
    Extent3 { x, y, z }
}

#[test]
fn the_codes_are_those_of_the_graphics_api() {
    assert_eq!(
        IMAGE_USAGE_COLOR_ATTACHMENT,
        vk::ImageUsageFlags::COLOR_ATTACHMENT.as_raw()
    );
    assert_eq!(
        IMAGE_USAGE_DEPTH_STENCIL_ATTACHMENT,
        vk::ImageUsageFlags::DEPTH_STENCIL_ATTACHMENT.as_raw()
    );
    assert_eq!(
        IMAGE_CREATE_CUBE_COMPATIBLE,
        vk::ImageCreateFlags::CUBE_COMPATIBLE.as_raw()
    );
    assert_eq!(IMAGE_TILING_OPTIMAL, vk::ImageTiling::OPTIMAL.as_raw());
    assert_eq!(IMAGE_ASPECT_COLOR, vk::ImageAspectFlags::COLOR.as_raw());
    assert_eq!(REMAINING_MIP_LEVELS, vk::REMAINING_MIP_LEVELS);
    assert_eq!(REMAINING_ARRAY_LAYERS, vk::REMAINING_ARRAY_LAYERS);
    assert_eq!(R8G8B8A8_UNORM, vk::Format::R8G8B8A8_UNORM.as_raw());
    for (ty, code) in [
        (ImageType::Cube, vk::ImageViewType::CUBE),
        (ImageType::CubeArray, vk::ImageViewType::CUBE_ARRAY),
        (ImageType::Texture1D, vk::ImageViewType::TYPE_1D),
        (ImageType::Texture2D, vk::ImageViewType::TYPE_2D),
        (ImageType::Texture3D, vk::ImageViewType::TYPE_3D),
        (ImageType::TextureArray1D, vk::ImageViewType::TYPE_1D_ARRAY),
        (ImageType::TextureArray2D, vk::ImageViewType::TYPE_2D_ARRAY),
    ] {
        assert_eq!(ty.into_vk(), code.as_raw());
    }
    for (count, flag) in [
        (SampleCount::X1, vk::SampleCountFlags::TYPE_1),
        (SampleCount::X2, vk::SampleCountFlags::TYPE_2),
        (SampleCount::X4, vk::SampleCountFlags::TYPE_4),
        (SampleCount::X8, vk::SampleCountFlags::TYPE_8),
        (SampleCount::X16, vk::SampleCountFlags::TYPE_16),
        (SampleCount::X32, vk::SampleCountFlags::TYPE_32),
        (SampleCount::X64, vk::SampleCountFlags::TYPE_64),
    ] {
        assert_eq!(count.into_vk(), flag.as_raw());
    }
}

#[test]
fn mip_count_is_the_number_of_halvings() {
    assert_eq!(ImageInfoBuilder::mip_count_1d(0), 0);
    assert_eq!(ImageInfoBuilder::mip_count_1d(1), 1);
    assert_eq!(ImageInfoBuilder::mip_count_1d(2), 2);
    assert_eq!(ImageInfoBuilder::mip_count_1d(3), 2);
    assert_eq!(ImageInfoBuilder::mip_count_1d(4), 3);
    assert_eq!(ImageInfoBuilder::mip_count_1d(255), 8);
    assert_eq!(ImageInfoBuilder::mip_count_1d(256), 9);
    assert_eq!(ImageInfoBuilder::mip_count_1d(1920), 11);
    assert_eq!(ImageInfoBuilder::mip_count_1d(u32::MAX), 32);
}

#[test]
fn all_mip_levels_follows_the_longest_side() {
    let builder = ImageInfo::new_2d(R8G8B8A8_UNORM, Extent2 { x: 1920, y: 1080 }).all_mip_levels();
    assert_eq!(builder.mip_level_count, Some(11));
    let builder = ImageInfo::new_3d(R8G8B8A8_UNORM, extent(4, 8, 64)).all_mip_levels();
    assert_eq!(builder.mip_level_count, Some(7));
    let builder = ImageInfo::new_3d(R8G8B8A8_UNORM, extent(4, 300, 64)).all_mip_levels();
    assert_eq!(builder.mip_level_count, Some(9));
    let builder = ImageInfo::new_1d(R8G8B8A8_UNORM, 0).all_mip_levels();
    assert_eq!(builder.mip_level_count, Some(1));
}

#[test]
fn extent_div_rounds_down() {
    let builder = ImageInfo::new_3d(R8G8B8A8_UNORM, extent(100, 7, 9)).extent_div(extent(3, 7, 10));
    assert_eq!(builder.extent, Some(extent(33, 1, 0)));
    assert_eq!(builder.fmt, Some(R8G8B8A8_UNORM));
}

#[test]
fn extent_div_up_rounds_up() {
    let builder = ImageInfo::new_3d(R8G8B8A8_UNORM, extent(100, 7, 9));
    assert!(builder.can_div_up(extent(3, 7, 10)));
    assert_eq!(
        builder.extent_div_up(extent(3, 7, 10)).extent,
        Some(extent(34, 1, 1))
    );
    assert_eq!(
        ImageInfo::new_3d(R8G8B8A8_UNORM, extent(0, 1, 2))
            .extent_div_up(extent(1, 1, 1))
            .extent,
        Some(extent(0, 1, 2))
    );
    assert!(!builder.can_div_up(extent(3, 0, 10)));
    assert!(!builder.can_div_up(extent(u32::MAX - 99, 1, 1)));
    assert!(builder.can_div_up(extent(u32::MAX - 100, 1, 1)));
    assert!(!ImageInfoBuilder::default().can_div_up(extent(1, 1, 1)));
}

#[test]
fn half_res_halves_and_rounds_up() {
    let builder = ImageInfo::new_2d(R8G8B8A8_UNORM, Extent2 { x: 1921, y: 1080 }).half_res();
    assert_eq!(builder.extent, Some(extent(961, 540, 1)));
}

#[test]
fn builders_start_with_what_the_shape_needs() {
    let info = ImageInfo::new_1d(R8G8B8A8_UNORM, 16).build().unwrap();
    assert_eq!(
        info,
        ImageInfo {
            ty: ImageType::Texture1D,
            usage: 0,
            flags: 0,
            fmt: R8G8B8A8_UNORM,
            extent: extent(16, 1, 1),
            tiling: IMAGE_TILING_OPTIMAL,
            mip_level_count: 1,
            array_elements: 1,
            sample_count: SampleCount::X1,
        }
    );
    let cube = ImageInfo::new_cube(R8G8B8A8_UNORM, 64).build().unwrap();
    assert_eq!(cube.ty, ImageType::Cube);
    assert_eq!(cube.extent, extent(64, 64, 1));
    assert_eq!(cube.array_elements, 6);
    assert_eq!(cube.flags, IMAGE_CREATE_CUBE_COMPATIBLE);
    let image = ImageInfo::new_2d(R8G8B8A8_UNORM, Extent2 { x: 3, y: 4 })
        .usage(IMAGE_USAGE_COLOR_ATTACHMENT)
        .sample_count(SampleCount::X4)
        .tiling(1)
        .mip_level_count(2)
        .build()
        .unwrap();
    assert_eq!(image.extent_2d(), Extent2 { x: 3, y: 4 });
    assert_eq!(image.sample_count, SampleCount::X4);
    assert_eq!(image.tiling, 1);
    assert_eq!(image.mip_level_count, 2);
    assert_eq!(image.fmt(44).fmt, 44);
}

#[test]
fn a_builder_names_the_first_field_which_is_missing() {
    assert_eq!(ImageInfoBuilder::default().build().unwrap_err().name, "ty");
    assert_eq!(
        ImageInfoBuilder::default()
            .ty(ImageType::Cube)
            .build()
            .unwrap_err()
            .name,
        "fmt"
    );
    assert_eq!(
        ImageInfoBuilder::default()
            .ty(ImageType::Cube)
            .fmt(1)
            .build()
            .unwrap_err()
            .name,
        "extent"
    );
    assert_eq!(
        ImageViewInfo::new().build().unwrap_err().name,
        "array_layer_count"
    );
    assert_eq!(
        ImageViewInfo::new()
            .array_layer_count(None)
            .aspect_mask(1)
            .base_array_layer(0)
            .base_mip_level(0)
            .fmt(1)
            .mip_level_count(Some(1))
            .build()
            .unwrap_err()
            .name,
        "ty"
    );
}

#[test]
fn into_builder_drops_the_sample_count() {
    let info = ImageInfo::new_2d(R8G8B8A8_UNORM, Extent2 { x: 3, y: 4 })
        .sample_count(SampleCount::X8)
        .usage(4)
        .build()
        .unwrap();
    let builder = info.into_builder();
    assert_eq!(builder.sample_count, None);
    assert_eq!(builder.usage, Some(4));
    assert_eq!(builder.build().unwrap().sample_count, SampleCount::X1);
}

#[test]
fn image_create_info_follows_the_kind() {
    let base = ImageInfo {
        ty: ImageType::Texture1D,
        usage: 6,
        flags: 8,
        fmt: R8G8B8A8_UNORM,
        extent: extent(10, 20, 30),
        tiling: 1,
        mip_level_count: 3,
        array_elements: 5,
        sample_count: SampleCount::X2,
    };
    let expect = |image_type: i32, extent: Extent3, array_layers: u32| ImageCreateInfo {
        flags: 8,
        image_type,
        format: R8G8B8A8_UNORM,
        extent,
        mip_levels: 3,
        array_layers,
        samples: 2,
        tiling: 1,
        usage: 6,
        sharing_mode: ash::vk::SharingMode::EXCLUSIVE.as_raw(),
        initial_layout: ash::vk::ImageLayout::UNDEFINED.as_raw(),
    };
    let with = |ty: ImageType| ImageInfo { ty, ..base }.image_create_info();
    let one = ash::vk::ImageType::TYPE_1D.as_raw();
    let two = ash::vk::ImageType::TYPE_2D.as_raw();
    let three = ash::vk::ImageType::TYPE_3D.as_raw();
    assert_eq!(with(ImageType::Texture1D), expect(one, extent(10, 1, 1), 1));
    assert_eq!(
        with(ImageType::TextureArray1D),
        expect(one, extent(10, 1, 1), 5)
    );
    assert_eq!(with(ImageType::Texture2D), expect(two, extent(10, 20, 1), 1));
    assert_eq!(
        with(ImageType::TextureArray2D),
        expect(two, extent(10, 20, 1), 5)
    );
    assert_eq!(
        with(ImageType::Texture3D),
        expect(three, extent(10, 20, 30), 1)
    );
    assert_eq!(with(ImageType::Cube), expect(two, extent(10, 20, 1), 6));
    assert_eq!(
        with(ImageType::CubeArray),
        expect(two, extent(10, 20, 1), 30)
    );
    assert!(base.can_create());
    let many = ImageInfo {
        ty: ImageType::CubeArray,
        array_elements: u32::MAX / 6 + 1,
        ..base
    };
    assert!(!many.can_create());
    assert!(ImageInfo {
        array_elements: u32::MAX / 6,
        ..many
    }
    .can_create());
}

#[test]
fn compatible_items_hands_out_the_next_lower_count() {
    let mut none = SampleCount::X1.compatible_items();
    assert_eq!(none.next(), None);
    let mut items = SampleCount::X8.compatible_items();
    assert_eq!(items.next(), Some(SampleCount::X4));
    assert_eq!(items.next(), Some(SampleCount::X4));
    assert_eq!(
        SampleCount::X64.compatible_items().next(),
        Some(SampleCount::X32)
    );
    assert_eq!(
        SampleCount::X2.compatible_items().next(),
        Some(SampleCount::X1)
    );
    assert_eq!(SampleCount::default(), SampleCount::X1);
}

#[test]
fn the_sample_count_falls_back_to_what_the_device_supports() {
    let info = |usage: u32, sample_count: SampleCount| ImageInfo {
        ty: ImageType::Texture2D,
        usage,
        flags: 0,
        fmt: R8G8B8A8_UNORM,
        extent: extent(4, 4, 1),
        tiling: 0,
        mip_level_count: 1,
        array_elements: 1,
        sample_count,
    };
    let color = IMAGE_USAGE_COLOR_ATTACHMENT;
    let depth = IMAGE_USAGE_DEPTH_STENCIL_ATTACHMENT;
    // Supported as it is.
    assert_eq!(
        info(color, SampleCount::X8).with_supported_sample_count(0b1111, 0),
        Some(info(color, SampleCount::X8))
    );
    // The next lower count is supported.
    assert_eq!(
        info(color, SampleCount::X8).with_supported_sample_count(0b0111, 0),
        Some(info(color, SampleCount::X4))
    );
    // Only a count below the next lower one is supported.
    assert_eq!(
        info(color, SampleCount::X8).with_supported_sample_count(0b0011, 0),
        None
    );
    // One sample has nothing below it.
    assert_eq!(
        info(color, SampleCount::X1).with_supported_sample_count(0b0010, 0),
        None
    );
    // The limits apply to attachments alone.
    assert_eq!(
        info(4, SampleCount::X8).with_supported_sample_count(1, 1),
        Some(info(4, SampleCount::X8))
    );
    // Both limits apply in turn.
    assert_eq!(
        info(color | depth, SampleCount::X8).with_supported_sample_count(0b0100, 0b0010),
        Some(info(color | depth, SampleCount::X2))
    );
    assert_eq!(
        info(depth, SampleCount::X8).with_supported_sample_count(0, 0b1000),
        Some(info(depth, SampleCount::X8))
    );
    // An image has to be used for something.
    assert_eq!(
        info(0, SampleCount::X1).with_supported_sample_count(0b1111111, 0b1111111),
        None
    );
    assert!(SampleCount::X4.supported_by(0b0110));
    assert!(!SampleCount::X4.supported_by(0b1011));
}

#[test]
fn subresources_cover_all_that_remains_by_default() {
    assert_eq!(
        ImageSubresource::default().into_vk(),
        ImageSubresourceRange {
            aspect_mask: IMAGE_ASPECT_COLOR,
            base_mip_level: 0,
            level_count: u32::MAX,
            base_array_layer: 0,
            layer_count: u32::MAX,
        }
    );
    let some = ImageSubresource {
        array_layer_count: Some(2),
        aspect_mask: 6,
        base_array_layer: 3,
        base_mip_level: 4,
        mip_level_count: Some(5),
    };
    assert_eq!(
        some.into_vk(),
        ImageSubresourceRange {
            aspect_mask: 6,
            base_mip_level: 4,
            level_count: 5,
            base_array_layer: 3,
            layer_count: 2,
        }
    );
    assert_eq!(ImageSubresource::whole(2).aspect_mask, 2);
}

#[test]
fn a_view_of_a_whole_image_covers_its_levels_and_elements() {
    let info = ImageInfo::new_cube(R8G8B8A8_UNORM, 8)
        .mip_level_count(4)
        .build()
        .unwrap();
    let view = ImageViewInfo::from_image_info(info, IMAGE_ASPECT_COLOR);
    assert_eq!(
        view,
        ImageViewInfo {
            array_layer_count: Some(6),
            aspect_mask: IMAGE_ASPECT_COLOR,
            base_array_layer: 0,
            base_mip_level: 0,
            fmt: R8G8B8A8_UNORM,
            mip_level_count: Some(4),
            ty: ImageType::Cube,
        }
    );
    assert_eq!(view.subresource_range().layer_count, 6);
    assert_eq!(view.subresource_range().level_count, 4);
    let subresource = ImageSubresource::from_view_info(view);
    assert_eq!(subresource.array_layer_count, Some(6));
    assert_eq!(subresource.mip_level_count, Some(4));
    let array = ImageViewInfo {
        ty: ImageType::TextureArray2D,
        array_layer_count: Some(9),
        mip_level_count: None,
        ..view
    };
    assert_eq!(
        ImageSubresource::from_view_info(array).array_layer_count,
        Some(1)
    );
    assert_eq!(array.subresource_range().level_count, u32::MAX);
}

#[test]
fn an_image_keeps_one_view_for_each_description() {
    let info = ImageInfo::new_2d(R8G8B8A8_UNORM, Extent2 { x: 4, y: 4 })
        .build()
        .unwrap();
    let mut image = Image::created(77, info);
    let color = ImageViewInfo::from_image_info(info, IMAGE_ASPECT_COLOR);
    let depth = ImageViewInfo::from_image_info(info, 2);
    assert_eq!(Image::view_ref(&image, color), None);
    assert_eq!(image.keep_view(color, 1), None);
    assert_eq!(image.keep_view(depth, 2), None);
    assert_eq!(Image::view_ref(&image, color), Some(1));
    assert_eq!(Image::view_ref(&image, depth), Some(2));
    assert_eq!(image.keep_view(color, 3), Some(3));
    assert_eq!(Image::view_ref(&image, color), Some(1));
    assert_eq!(image.image(), 77);
    assert_eq!(image.info(), info);

    let raw = Image::clone_raw(&image);
    assert_eq!(raw.image(), 77);
    assert_eq!(Image::view_ref(&raw, color), None);
    let dropped = raw.destroy();
    assert_eq!(dropped.image, None);
    assert!(dropped.views.is_empty());

    let dropped = image.destroy();
    assert_eq!(dropped.image, Some(77));
    assert_eq!(dropped.views, vec![1, 2]);
    assert_eq!(Image::from_raw(5, info).destroy().image, None);
}
