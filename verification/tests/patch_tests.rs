use openvx::ImageType;
use openvx::PatchLayout;
use openvx::Rect;
use openvx::VxContext;
use openvx::VxError;

fn layout(stride_x: i32, stride_y: i32) -> PatchLayout {
    PatchLayout {
        stride_x,
        stride_y,
        dim_x: 0,
        dim_y: 0,
        scale_x: 0,
        scale_y: 0,
        step_x: 0,
        step_y: 0,
        stride_x_bits: 0,
    }
}

#[test]
fn write_then_read_round_trips() {
    let mut ctx = VxContext::create();
    let image = ctx.create_image(ImageType::U8, 4, 4).unwrap();
    let rect = Rect { start_x: 1, start_y: 1, end_x: 3, end_y: 3 };
    let data: Vec<u8> = vec![10, 20, 30, 40];
    ctx.write_image_patch(&image, &rect, &layout(1, 2), &data).unwrap();
    let back = ctx.read_image_patch(&image, &rect).unwrap();
    assert_eq!(back, data);
    // Bytes outside the written region are still zero.
    let whole = Rect { start_x: 0, start_y: 0, end_x: 4, end_y: 4 };
    let all = ctx.read_image_patch(&image, &whole).unwrap();
    assert_eq!(
        all,
        vec![
            0, 0, 0, 0, //
            0, 10, 20, 0, //
            0, 30, 40, 0, //
            0, 0, 0, 0,
        ]
    );
}

#[test]
fn stride_layout_is_honoured() {
    // A row stride wider than the region row skips the caller's padding
    // bytes without reinterpretation.
    let mut ctx = VxContext::create();
    let image = ctx.create_image(ImageType::U8, 2, 2).unwrap();
    let rect = Rect { start_x: 0, start_y: 0, end_x: 2, end_y: 2 };
    let data: Vec<u8> = vec![1, 2, 99, 99, 3, 4, 99, 99];
    ctx.write_image_patch(&image, &rect, &layout(1, 4), &data).unwrap();
    let back = ctx.read_image_patch(&image, &rect).unwrap();
    assert_eq!(back, vec![1, 2, 3, 4]);
}

#[test]
fn populated_follows_writes() {
    let mut ctx = VxContext::create();
    let image = ctx.create_image(ImageType::U8, 4, 4).unwrap();
    assert!(!ctx.is_image_populated(&image).unwrap());
    let rect = Rect { start_x: 0, start_y: 0, end_x: 4, end_y: 1 };
    ctx.write_image_patch(&image, &rect, &layout(1, 4), &vec![9; 4]).unwrap();
    assert!(ctx.is_image_populated(&image).unwrap());
}

#[test]
fn patch_rejects_bad_regions_and_layouts() {
    let mut ctx = VxContext::create();
    let image = ctx.create_image(ImageType::U8, 4, 4).unwrap();
    // A rectangle outside the image.
    let outside = Rect { start_x: 0, start_y: 0, end_x: 5, end_y: 4 };
    assert_eq!(
        ctx.write_image_patch(&image, &outside, &layout(1, 4), &vec![0; 32]),
        Err(VxError::InvalidParameters)
    );
    // An empty rectangle.
    let empty = Rect { start_x: 2, start_y: 2, end_x: 2, end_y: 3 };
    assert_eq!(
        ctx.read_image_patch(&image, &empty),
        Err(VxError::InvalidParameters)
    );
    // A pixel stride that does not match the pixel width.
    let rect = Rect { start_x: 0, start_y: 0, end_x: 4, end_y: 4 };
    assert_eq!(
        ctx.write_image_patch(&image, &rect, &layout(2, 8), &vec![0; 32]),
        Err(VxError::InvalidParameters)
    );
    // A buffer shorter than the region the layout describes.
    assert_eq!(
        ctx.write_image_patch(&image, &rect, &layout(1, 4), &vec![0; 15]),
        Err(VxError::InvalidParameters)
    );
}

#[test]
fn patch_rejects_multi_plane_formats() {
    let mut ctx = VxContext::create();
    let image = ctx.create_image(ImageType::NV12, 4, 4).unwrap();
    let rect = Rect { start_x: 0, start_y: 0, end_x: 4, end_y: 4 };
    assert_eq!(
        ctx.write_image_patch(&image, &rect, &layout(1, 4), &vec![0; 16]),
        Err(VxError::NotSupported)
    );
    assert_eq!(
        ctx.read_image_patch(&image, &rect),
        Err(VxError::NotSupported)
    );
}

#[test]
fn patch_checks_scope_and_liveness() {
    let mut ctx = VxContext::create();
    let mut other = VxContext::create_with_session(2);
    let image = ctx.create_image(ImageType::U8, 4, 4).unwrap();
    let rect = Rect { start_x: 0, start_y: 0, end_x: 4, end_y: 4 };
    assert_eq!(
        other.write_image_patch(&image, &rect, &layout(1, 4), &vec![0; 16]),
        Err(VxError::InvalidScope)
    );
    let foreign = other.create_image(ImageType::U8, 4, 4).unwrap();
    assert_eq!(
        ctx.read_image_patch(&foreign, &rect),
        Err(VxError::InvalidScope)
    );
}

#[test]
fn image_creation_rejects_bad_arguments() {
    let mut ctx = VxContext::create();
    assert_eq!(
        ctx.create_image(ImageType::Virtual, 4, 4).unwrap_err(),
        VxError::InvalidFormat
    );
    assert_eq!(
        ctx.create_image(ImageType::Other { code: 7 }, 4, 4).unwrap_err(),
        VxError::InvalidFormat
    );
    assert_eq!(
        ctx.create_image(ImageType::U8, 0, 4).unwrap_err(),
        VxError::InvalidDimension
    );
    assert_eq!(
        ctx.create_image(ImageType::U8, 4, 99999).unwrap_err(),
        VxError::InvalidDimension
    );
}
