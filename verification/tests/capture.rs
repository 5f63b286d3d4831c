use ax::capture::{
    element_selector_label, encode_base64, encode_image, image_size, plan_screenshot_target,
    require_screenshot_output, rgba_to_rgb, ScreenshotTarget, ScreenshotTargetKind,
};
use ax::cli::{ElementTargetArgs, ScreenshotArgs, ScreenshotImageFormat, TargetArgs};
use ax::error::AxError;

fn args() -> ScreenshotArgs {
    ScreenshotArgs {
        element: ElementTargetArgs {
            target: TargetArgs { app: None, pid: None },
            focused: false,
            point: None,
            identifier: None,
            path: None,
        },
        rect: None,
        image_format: ScreenshotImageFormat::Png,
        out: None,
        base64: false,
    }
}

fn bad(msg: &str) -> AxError {
    AxError::InvalidScreenshotTarget(msg.to_string())
}

#[test]
fn output_is_required() {
    let mut a = args();
    assert_eq!(
        require_screenshot_output(&a),
        Err(AxError::InvalidArgument(
            "screenshot output requires --out <path>, --base64, or both".to_string()
        ))
    );
    a.base64 = true;
    assert_eq!(require_screenshot_output(&a), Ok(()));
    a.base64 = false;
    a.out = Some("x.png".to_string());
    assert_eq!(require_screenshot_output(&a), Ok(()));
}

#[test]
fn rect_target_and_its_conflicts() {
    let mut a = args();
    a.rect = Some("1,2,3,4".to_string());
    assert_eq!(
        plan_screenshot_target(&a),
        Ok(ScreenshotTarget {
            kind: ScreenshotTargetKind::Rect("1,2,3,4".to_string()),
            selector: "1,2,3,4".to_string()
        })
    );
    a.element.focused = true;
    assert_eq!(plan_screenshot_target(&a), Err(bad("--rect cannot be combined with element selectors")));
}

#[test]
fn identifier_and_path_targets() {
    let mut a = args();
    a.element.identifier = Some("save".to_string());
    a.element.path = Some("0.1".to_string());
    assert_eq!(plan_screenshot_target(&a), Err(bad("use only one of --identifier or --path")));
    a.element.path = None;
    assert_eq!(plan_screenshot_target(&a), Err(bad("--identifier requires --app or --pid")));
    a.element.target.pid = Some(3);
    assert_eq!(
        plan_screenshot_target(&a),
        Ok(ScreenshotTarget {
            kind: ScreenshotTargetKind::Identifier("save".to_string()),
            selector: "identifier:save".to_string()
        })
    );
    a.element.point = Some("1,1".to_string());
    assert_eq!(
        plan_screenshot_target(&a),
        Err(bad("--identifier cannot be combined with --focused or --point"))
    );
    let mut a = args();
    a.element.path = Some("0.1".to_string());
    a.element.target.app = Some("Notes".to_string());
    assert_eq!(
        plan_screenshot_target(&a),
        Ok(ScreenshotTarget {
            kind: ScreenshotTargetKind::Path("0.1".to_string()),
            selector: "path:0.1".to_string()
        })
    );
    a.element.focused = true;
    assert_eq!(plan_screenshot_target(&a), Err(bad("--path cannot be combined with --focused or --point")));
    a.element.focused = false;
    a.element.target.app = None;
    assert_eq!(plan_screenshot_target(&a), Err(bad("--path requires --app or --pid")));
}

#[test]
fn live_selector_targets_and_labels() {
    let mut a = args();
    assert_eq!(
        plan_screenshot_target(&a),
        Err(bad("provide --rect or an element target (--focused, --point, --app/--pid, --identifier, or --path)"))
    );
    a.element.target.pid = Some(77);
    assert_eq!(element_selector_label(&a), "pid:77");
    assert_eq!(
        plan_screenshot_target(&a),
        Ok(ScreenshotTarget { kind: ScreenshotTargetKind::Element, selector: "pid:77".to_string() })
    );
    a.element.target.app = Some("Mail".to_string());
    assert_eq!(element_selector_label(&a), "app:Mail");
    a.element.point = Some("3,4".to_string());
    assert_eq!(element_selector_label(&a), "point:3,4");
    a.element.focused = true;
    assert_eq!(element_selector_label(&a), "focused");
    let b = args();
    assert_eq!(element_selector_label(&b), "element");
}

#[test]
fn base64_of_known_strings() {
    assert_eq!(encode_base64(b""), "");
    assert_eq!(encode_base64(b"f"), "Zg==");
    assert_eq!(encode_base64(b"fo"), "Zm8=");
    assert_eq!(encode_base64(b"foo"), "Zm9v");
    assert_eq!(encode_base64(b"foobar"), "Zm9vYmFy");
    assert_eq!(encode_base64(&[0xfb, 0xff]), "+/8=");
}

#[test]
fn alpha_is_dropped() {
    assert_eq!(rgba_to_rgb(&[1, 2, 3, 4, 5, 6, 7, 8, 9]), vec![1, 2, 3, 5, 6, 7]);
    assert_eq!(rgba_to_rgb(&[]), Vec::<u8>::new());
}

#[test]
fn png_encoding_has_signature() {
    let rgba = vec![255u8, 0, 0, 255, 0, 255, 0, 255];
    let png = encode_image(ScreenshotImageFormat::Png, 2, 1, &rgba).unwrap();
    assert_eq!(&png[..8], &[0x89, b'P', b'N', b'G', 0x0d, 0x0a, 0x1a, 0x0a]);
    assert!(png.len() > rgba.len());
}

#[test]
fn png_encoding_reports_short_data() {
    let r = encode_image(ScreenshotImageFormat::Png, 4, 4, &[0u8; 3]);
    assert!(matches!(r, Err(AxError::ScreenshotUnavailable(_))));
}

#[test]
fn jpeg_encoding_and_limits() {
    let rgba = vec![10u8; 4 * 4 * 4];
    let jpg = encode_image(ScreenshotImageFormat::Jpeg, 4, 4, &rgba).unwrap();
    assert_eq!(&jpg[..2], &[0xff, 0xd8]);
    assert_eq!(&jpg[jpg.len() - 2..], &[0xff, 0xd9]);
    assert_eq!(
        encode_image(ScreenshotImageFormat::Jpeg, 70000, 1, &[]),
        Err(AxError::ScreenshotUnavailable("image width exceeds jpeg limit".to_string()))
    );
    assert_eq!(
        encode_image(ScreenshotImageFormat::Jpeg, 1, 70000, &[]),
        Err(AxError::ScreenshotUnavailable("image height exceeds jpeg limit".to_string()))
    );
}

#[test]
fn image_size_fits_u32() {
    assert_eq!(image_size(640, 480), Ok((640, 480)));
    assert_eq!(
        image_size(usize::MAX, 1),
        Err(AxError::ScreenshotUnavailable("image width exceeds u32".to_string()))
    );
    assert_eq!(
        image_size(1, (u32::MAX as usize) + 1),
        Err(AxError::ScreenshotUnavailable("image height exceeds u32".to_string()))
    );
    assert_eq!(ScreenshotImageFormat::Jpeg.as_str(), "jpeg");
}

#[test]
fn png_size_beyond_the_address_space_is_refused() {
    assert_eq!(
        encode_image(ScreenshotImageFormat::Png, u32::MAX, u32::MAX, &[]),
        Err(AxError::ScreenshotUnavailable("image size exceeds png limit".to_string()))
    );
}
