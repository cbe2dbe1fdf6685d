use image::GenericImageView;
use jp2k::assemble::{assemble_rgba, rgba_to_image};
use jp2k::{ColorSpace, ColorSpaceValue, Component, Error, Image, ImageBuffer, Info};

fn plane(values: Vec<i32>, factor: u32) -> Component {
    Component { data: values, factor }
}

fn two_by_two(comps: Vec<Component>) -> Image {
    Image { x0: 0, y0: 0, x1: 2, y1: 2, comps, color_space: ColorSpaceValue::SRGB }
}

#[test]
fn packing_three_constant_planes_interleaves_them() {
    let img = two_by_two(vec![
        plane(vec![10, 10, 10, 10], 0),
        plane(vec![20, 20, 20, 20], 0),
        plane(vec![30, 30, 30, 30], 0),
    ]);
    let out = ImageBuffer::build(&img).unwrap();
    assert_eq!(out.width, 2);
    assert_eq!(out.height, 2);
    assert_eq!(out.num_bands, 3);
    assert_eq!(out.buffer, vec![10, 20, 30, 10, 20, 30, 10, 20, 30, 10, 20, 30]);
}

#[test]
fn two_component_images_are_refused() {
    let img = two_by_two(vec![plane(vec![1, 2, 3, 4], 0), plane(vec![5, 6, 7, 8], 0)]);
    let err = ImageBuffer::build(&img).unwrap_err();
    assert_eq!(err, Error::UnsupportedComponentCount(2));
    assert_eq!(err.message(), "Unsupported component count.");
}

#[test]
fn zero_component_images_are_refused() {
    let img = two_by_two(Vec::new());
    let err = ImageBuffer::build(&img).unwrap_err();
    assert_eq!(err, Error::UnsupportedComponentCount(0));
}

#[test]
fn one_plane_packs_as_grayscale_passthrough() {
    let img = two_by_two(vec![plane(vec![9, 8, 7, 6], 0)]);
    let out = ImageBuffer::build(&img).unwrap();
    assert_eq!(out.num_bands, 1);
    assert_eq!(out.buffer, vec![9, 8, 7, 6]);
}

#[test]
fn four_planes_pack_as_rgba() {
    let img = two_by_two(vec![
        plane(vec![1, 5, 9, 13], 0),
        plane(vec![2, 6, 10, 14], 0),
        plane(vec![3, 7, 11, 15], 0),
        plane(vec![4, 8, 12, 16], 0),
    ]);
    let out = ImageBuffer::build(&img).unwrap();
    assert_eq!(out.num_bands, 4);
    assert_eq!(
        out.buffer,
        vec![1, 2, 3, 4, 5, 6, 7, 8, 9, 10, 11, 12, 13, 14, 15, 16]
    );
}

#[test]
fn short_plane_is_refused() {
    let img = two_by_two(vec![plane(vec![1, 2, 3], 0)]);
    let err = ImageBuffer::build(&img).unwrap_err();
    assert_eq!(err, Error::ImageContainerTooSmall);
    assert_eq!(err.message(), "Image container is too small.");
}

#[test]
fn samples_are_truncated_to_one_byte() {
    let img = Image {
        x0: 0,
        y0: 0,
        x1: 1,
        y1: 1,
        comps: vec![plane(vec![300], 0)],
        color_space: ColorSpaceValue::GRAY,
    };
    let out = ImageBuffer::build(&img).unwrap();
    assert_eq!(out.buffer, vec![44]);
}

#[test]
fn achieved_reduction_factor_shrinks_the_output() {
    // A 2 x 2 bounding box decoded with one reduction level achieved yields
    // a single pixel, so each plane holds one sample.
    let img = Image {
        x0: 0,
        y0: 0,
        x1: 2,
        y1: 2,
        comps: vec![plane(vec![77], 1)],
        color_space: ColorSpaceValue::GRAY,
    };
    let out = ImageBuffer::build(&img).unwrap();
    assert_eq!(out.width, 1);
    assert_eq!(out.height, 1);
    assert_eq!(out.buffer, vec![77]);
}

#[test]
fn header_info_reports_full_resolution_extent() {
    let img = Image {
        x0: 10,
        y0: 20,
        x1: 110,
        y1: 70,
        comps: Vec::new(),
        color_space: ColorSpaceValue::Unspecified,
    };
    let info = Info::build(&img);
    assert_eq!(info, Info { width: 100, height: 50 });
}

#[test]
fn rgba_assembly_broadcasts_gray() {
    let img = Image {
        x0: 0,
        y0: 0,
        x1: 1,
        y1: 1,
        comps: vec![plane(vec![5], 0)],
        color_space: ColorSpaceValue::GRAY,
    };
    let out = assemble_rgba(&img, &ColorSpace::GRAY).unwrap();
    assert_eq!(out, vec![5, 5, 5, 255]);
}

#[test]
fn rgba_assembly_fills_missing_slots_for_srgb() {
    let img = two_by_two(vec![
        plane(vec![1, 2, 3, 4], 0),
        plane(vec![11, 12, 13, 14], 0),
        plane(vec![21, 22, 23, 24], 0),
    ]);
    let out = assemble_rgba(&img, &ColorSpace::SRGB).unwrap();
    assert_eq!(
        out,
        vec![1, 11, 21, 255, 2, 12, 22, 255, 3, 13, 23, 255, 4, 14, 24, 255]
    );
}

#[test]
fn rgba_assembly_keeps_a_supplied_alpha_plane() {
    let img = Image {
        x0: 0,
        y0: 0,
        x1: 1,
        y1: 1,
        comps: vec![
            plane(vec![1], 0),
            plane(vec![2], 0),
            plane(vec![3], 0),
            plane(vec![128], 0),
        ],
        color_space: ColorSpaceValue::SRGB,
    };
    let out = assemble_rgba(&img, &ColorSpace::SRGB).unwrap();
    assert_eq!(out, vec![1, 2, 3, 128]);
}

#[test]
fn rgba_assembly_refuses_five_components() {
    let img = two_by_two(vec![
        plane(vec![0, 0, 0, 0], 0),
        plane(vec![0, 0, 0, 0], 0),
        plane(vec![0, 0, 0, 0], 0),
        plane(vec![0, 0, 0, 0], 0),
        plane(vec![0, 0, 0, 0], 0),
    ]);
    let err = assemble_rgba(&img, &ColorSpace::SRGB).unwrap_err();
    assert_eq!(err, Error::TooManyComponents(5));
}

#[test]
fn rgba_assembly_refuses_short_planes() {
    let img = two_by_two(vec![plane(vec![1, 2], 0)]);
    let err = assemble_rgba(&img, &ColorSpace::GRAY).unwrap_err();
    assert_eq!(err, Error::ImageContainerTooSmall);
}

#[test]
fn rgba_container_of_exact_size_becomes_an_image() {
    let out = rgba_to_image(2, 1, vec![1, 2, 3, 4, 5, 6, 7, 8]).unwrap();
    assert_eq!(out.dimensions(), (2, 1));
    let raw = out.into_rgba8().into_raw();
    assert_eq!(raw, vec![1, 2, 3, 4, 5, 6, 7, 8]);
}

#[test]
fn short_rgba_container_is_refused() {
    let err = rgba_to_image(2, 1, vec![1, 2, 3, 4, 5, 6, 7]).unwrap_err();
    assert_eq!(err, Error::ImageContainerTooSmall);
}
