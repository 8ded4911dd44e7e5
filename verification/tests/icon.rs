use my_wry::icon::decode_window_icon;

fn png_of(width: u32, height: u32, pixels: Vec<u8>) -> Vec<u8> {
    let img = image::RgbaImage::from_raw(width, height, pixels).unwrap();
    let mut buf = std::io::Cursor::new(Vec::new());
    img.write_to(&mut buf, image::ImageFormat::Png).unwrap();
    buf.into_inner()
}

#[test]
fn icon_decodes_to_rgba() {
    let pixels = vec![255, 0, 0, 255, 0, 255, 0, 128];
    let icon = decode_window_icon(&png_of(2, 1, pixels.clone())).unwrap();
    assert_eq!(icon.width, 2);
    assert_eq!(icon.height, 1);
    assert_eq!(icon.rgba, pixels);
}

#[test]
fn broken_icon_names_the_asset() {
    let err = decode_window_icon(b"not a png").unwrap_err();
    assert!(err.starts_with("无法解码默认窗口图标 assets/my_wry.png："), "{}", err);
    assert!(err.len() > "无法解码默认窗口图标 assets/my_wry.png：".len());
}
