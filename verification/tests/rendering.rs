//! Rendered frames and raw pixel data.

use wayland_remote::server::rendering::pixel_export::RgbaData;
use wayland_remote::server::rendering::FrameBuffer;

#[test]
fn to_rgba_swaps_red_and_blue() {
    let f = FrameBuffer { data: vec![1, 2, 3, 4, 10, 20, 30, 40, 99], width: 2, height: 1, stride: 8, window_id: 0 };
    assert_eq!(f.to_rgba(), vec![3, 2, 1, 4, 30, 20, 10, 40]);
}

#[test]
fn rgba_data_sizes() {
    let d = RgbaData::new(2, 3, vec![0u8; 24]);
    assert_eq!(d.byte_size(), 24);
    assert_eq!(RgbaData::expected_size(2, 3), 24);
    assert_eq!(RgbaData::expected_size(1920, 1080), 8_294_400);
    assert_eq!(RgbaData::expected_size(65536, 65536), 17_179_869_184);
}

#[test]
fn library_versions() {
    assert_eq!(wayland_remote::server::version(), "0.1.0");
    assert_eq!(wayland_remote::viewer::version(), "0.1.0");
}
