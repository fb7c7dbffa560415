use openvx::vx_df_image;
use openvx::ImageType;
use openvx::VX_DF_IMAGE_IYUV;
use openvx::VX_DF_IMAGE_NV12;
use openvx::VX_DF_IMAGE_NV21;
use openvx::VX_DF_IMAGE_RGB;
use openvx::VX_DF_IMAGE_RGBX;
use openvx::VX_DF_IMAGE_S16;
use openvx::VX_DF_IMAGE_S32;
use openvx::VX_DF_IMAGE_U1;
use openvx::VX_DF_IMAGE_U16;
use openvx::VX_DF_IMAGE_U32;
use openvx::VX_DF_IMAGE_U8;
use openvx::VX_DF_IMAGE_UYVY;
use openvx::VX_DF_IMAGE_VIRT;
use openvx::VX_DF_IMAGE_YUV4;
use openvx::VX_DF_IMAGE_YUYV;

#[test]
fn imagetype_type_virt() {
    assert_eq!(VX_DF_IMAGE_VIRT, vx_df_image('V', 'I', 'R', 'T'));
    assert_eq!(ImageType::Virtual.to_raw(), VX_DF_IMAGE_VIRT);
    assert_eq!(ImageType::from(VX_DF_IMAGE_VIRT), ImageType::Virtual);
}

#[test]
fn imagetype_types_rgb() {
    assert_eq!(VX_DF_IMAGE_RGB, vx_df_image('R', 'G', 'B', '2'));
    assert_eq!(ImageType::RGB.to_raw(), VX_DF_IMAGE_RGB);
    assert_eq!(ImageType::from(VX_DF_IMAGE_RGB), ImageType::RGB);
}

#[test]
fn imagetype_types_rgbx() {
    assert_eq!(VX_DF_IMAGE_RGBX, vx_df_image('R', 'G', 'B', 'A'));
    assert_eq!(ImageType::RGBX.to_raw(), VX_DF_IMAGE_RGBX);
    assert_eq!(ImageType::from(VX_DF_IMAGE_RGBX), ImageType::RGBX);
}

#[test]
fn imagetype_types_nv12() {
    assert_eq!(VX_DF_IMAGE_NV12, vx_df_image('N', 'V', '1', '2'));
    assert_eq!(ImageType::NV12.to_raw(), VX_DF_IMAGE_NV12);
    assert_eq!(ImageType::from(VX_DF_IMAGE_NV12), ImageType::NV12);
}

#[test]
fn imagetype_types_nv21() {
    assert_eq!(VX_DF_IMAGE_NV21, vx_df_image('N', 'V', '2', '1'));
    assert_eq!(ImageType::NV21.to_raw(), VX_DF_IMAGE_NV21);
    assert_eq!(ImageType::from(VX_DF_IMAGE_NV21), ImageType::NV21);
}

#[test]
fn imagetype_types_uyvy() {
    assert_eq!(VX_DF_IMAGE_UYVY, vx_df_image('U', 'Y', 'V', 'Y'));
    assert_eq!(ImageType::UYVY.to_raw(), VX_DF_IMAGE_UYVY);
    assert_eq!(ImageType::from(VX_DF_IMAGE_UYVY), ImageType::UYVY);
}

#[test]
fn imagetype_types_yuyv() {
    assert_eq!(VX_DF_IMAGE_YUYV, vx_df_image('Y', 'U', 'Y', 'V'));
    assert_eq!(ImageType::YUYV.to_raw(), VX_DF_IMAGE_YUYV);
    assert_eq!(ImageType::from(VX_DF_IMAGE_YUYV), ImageType::YUYV);
}

#[test]
fn imagetype_types_iyuv() {
    assert_eq!(VX_DF_IMAGE_IYUV, vx_df_image('I', 'Y', 'U', 'V'));
    assert_eq!(ImageType::IYUV.to_raw(), VX_DF_IMAGE_IYUV);
    assert_eq!(ImageType::from(VX_DF_IMAGE_IYUV), ImageType::IYUV);
}

#[test]
fn imagetype_types_yuv4() {
    assert_eq!(VX_DF_IMAGE_YUV4, vx_df_image('Y', 'U', 'V', '4'));
    assert_eq!(ImageType::YUV4.to_raw(), VX_DF_IMAGE_YUV4);
    assert_eq!(ImageType::from(VX_DF_IMAGE_YUV4), ImageType::YUV4);
}

#[test]
fn imagetype_types_u1() {
    assert_eq!(VX_DF_IMAGE_U1, vx_df_image('U', '0', '0', '1'));
    assert_eq!(ImageType::U1.to_raw(), VX_DF_IMAGE_U1);
    assert_eq!(ImageType::from(VX_DF_IMAGE_U1), ImageType::U1);
}

#[test]
fn imagetype_types_u8() {
    assert_eq!(VX_DF_IMAGE_U8, vx_df_image('U', '0', '0', '8'));
    assert_eq!(ImageType::U8.to_raw(), VX_DF_IMAGE_U8);
    assert_eq!(ImageType::from(VX_DF_IMAGE_U8), ImageType::U8);
}

#[test]
fn imagetype_types_u16() {
    assert_eq!(VX_DF_IMAGE_U16, vx_df_image('U', '0', '1', '6'));
    assert_eq!(ImageType::U16.to_raw(), VX_DF_IMAGE_U16);
    assert_eq!(ImageType::from(VX_DF_IMAGE_U16), ImageType::U16);
}

#[test]
fn imagetype_types_s16() {
    assert_eq!(VX_DF_IMAGE_S16, vx_df_image('S', '0', '1', '6'));
    assert_eq!(ImageType::S16.to_raw(), VX_DF_IMAGE_S16);
    assert_eq!(ImageType::from(VX_DF_IMAGE_S16), ImageType::S16);
}

#[test]
fn imagetype_types_u32() {
    assert_eq!(VX_DF_IMAGE_U32, vx_df_image('U', '0', '3', '2'));
    assert_eq!(ImageType::U32.to_raw(), VX_DF_IMAGE_U32);
    assert_eq!(ImageType::from(VX_DF_IMAGE_U32), ImageType::U32);
}

#[test]
fn imagetype_types_s32() {
    assert_eq!(VX_DF_IMAGE_S32, vx_df_image('S', '0', '3', '2'));
    assert_eq!(ImageType::S32.to_raw(), VX_DF_IMAGE_S32);
    assert_eq!(ImageType::from(VX_DF_IMAGE_S32), ImageType::S32);
}

#[test]
fn unknown_format_codes_are_preserved() {
    let other = ImageType::from(12345u32);
    assert_eq!(other, ImageType::Other { code: 12345 });
    assert_eq!(other.to_raw(), 12345);
}

#[test]
fn color_formats() {
    assert!(ImageType::RGB.is_color());
    assert!(ImageType::IYUV.is_color());
    assert!(!ImageType::U8.is_color());
    assert!(!ImageType::Virtual.is_color());
}

#[test]
fn pixel_bytes_per_format() {
    assert_eq!(ImageType::RGB.pixel_bytes(), Some(3));
    assert_eq!(ImageType::RGBX.pixel_bytes(), Some(4));
    assert_eq!(ImageType::U8.pixel_bytes(), Some(1));
    assert_eq!(ImageType::S16.pixel_bytes(), Some(2));
    assert_eq!(ImageType::NV12.pixel_bytes(), None);
    assert_eq!(ImageType::U1.pixel_bytes(), None);
}
