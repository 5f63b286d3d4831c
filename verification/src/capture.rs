//! Screenshots: which target a command line asks for, and how the captured
//! pixels are encoded as PNG or JPEG and as base64 text.

use vstd::prelude::*;
use crate::cli::{ScreenshotArgs, ScreenshotImageFormat};
use crate::error::AxError;
use crate::text::{i64_text, int_text, push_str};

verus! {

/// An encoded screenshot.
#[derive(Debug, Clone, PartialEq, Eq)]
pub struct ScreenshotImage {
    pub bytes: Vec<u8>,
    pub width: u32,
    pub height: u32,
    pub format: ScreenshotImageFormat,
}

// ---------------------------------------------------------------------------
// Choosing the target
// ---------------------------------------------------------------------------

/// What a screenshot captures.
#[derive(Debug, Clone, PartialEq, Eq)]
pub enum ScreenshotTargetKind {
    /// An explicit `x,y,width,height` rectangle, as typed.
    Rect(String),
    /// The first element with this identifier in the application.
    Identifier(String),
    /// The element at this synthetic tree path in the application.
    Path(String),
    /// The element picked by `--focused`, `--point`, `--app` or `--pid`.
    Element,
}

/// A screenshot target and the selector text reported for it.
#[derive(Debug, Clone, PartialEq, Eq)]
pub struct ScreenshotTarget {
    pub kind: ScreenshotTargetKind,
    pub selector: String,
}

/// The label of a live element selector.
pub open spec fn selector_label(args: ScreenshotArgs) -> Seq<char> {
    if args.element.focused {
        "focused"@
    } else if args.element.point is Some {
        "point:"@ + args.element.point->0@
    } else if args.element.target.app is Some {
        "app:"@ + args.element.target.app->0@
    } else if args.element.target.pid is Some {
        "pid:"@ + int_text(args.element.target.pid->0 as int)
    } else {
        "element"@
    }
}

/// The label of a live element selector.
pub fn element_selector_label(args: &ScreenshotArgs) -> (r: String)
    ensures
        r@ == selector_label(*args),
{
    if args.element.focused {
        "focused".to_string()
    } else if let Some(point) = &args.element.point {
        let mut r = "point:".to_string();
        push_str(&mut r, point.as_str());
        r
    } else if let Some(app) = &args.element.target.app {
        let mut r = "app:".to_string();
        push_str(&mut r, app.as_str());
        r
    } else if let Some(pid) = args.element.target.pid {
        let mut r = "pid:".to_string();
        let t = i64_text(pid as i64);
        push_str(&mut r, t.as_str());
        r
    } else {
        "element".to_string()
    }
}

/// `e` is an invalid-screenshot-target error with the message `msg`.
pub open spec fn is_bad_target(e: AxError, msg: Seq<char>) -> bool {
    e matches AxError::InvalidScreenshotTarget(m) && m@ == msg
}

/// What `plan_screenshot_target` gives for the arguments, said of `r`.
pub open spec fn screenshot_plan(args: ScreenshotArgs, r: Result<ScreenshotTarget, AxError>) -> bool {
    let e = args.element;
    let has_app_scope = e.target.app is Some || e.target.pid is Some;
    let has_live_selector = e.focused || e.point is Some || has_app_scope;
    if args.rect is Some && (e.identifier is Some || e.path is Some || has_live_selector) {
        r matches Err(x) && is_bad_target(x, "--rect cannot be combined with element selectors"@)
    } else if e.identifier is Some && e.path is Some {
        r matches Err(x) && is_bad_target(x, "use only one of --identifier or --path"@)
    } else if args.rect is Some {
        r matches Ok(t) && t.kind matches ScreenshotTargetKind::Rect(s) && s@ == args.rect->0@
            && t.selector@ == args.rect->0@
    } else if e.identifier is Some {
        if e.focused || e.point is Some {
            r matches Err(x) && is_bad_target(
                x,
                "--identifier cannot be combined with --focused or --point"@,
            )
        } else if !has_app_scope {
            r matches Err(x) && is_bad_target(x, "--identifier requires --app or --pid"@)
        } else {
            r matches Ok(t) && t.kind matches ScreenshotTargetKind::Identifier(s) && s@
                == e.identifier->0@ && t.selector@ == "identifier:"@ + e.identifier->0@
        }
    } else if e.path is Some {
        if e.focused || e.point is Some {
            r matches Err(x) && is_bad_target(x, "--path cannot be combined with --focused or --point"@)
        } else if !has_app_scope {
            r matches Err(x) && is_bad_target(x, "--path requires --app or --pid"@)
        } else {
            r matches Ok(t) && t.kind matches ScreenshotTargetKind::Path(s) && s@ == e.path->0@
                && t.selector@ == "path:"@ + e.path->0@
        }
    } else if has_live_selector {
        r matches Ok(t) && t.kind == ScreenshotTargetKind::Element && t.selector@ == selector_label(
            args,
        )
    } else {
        r matches Err(x) && is_bad_target(
            x,
            "provide --rect or an element target (--focused, --point, --app/--pid, --identifier, or --path)"@,
        )
    }
}

fn bad_target(msg: &str) -> (r: AxError)
    ensures
        is_bad_target(r, msg@),
{
    AxError::InvalidScreenshotTarget(msg.to_string())
}

fn labeled(label: &str, s: &String) -> (r: String)
    ensures
        r@ == label@ + s@,
{
    let mut r = label.to_string();
    push_str(&mut r, s.as_str());
    r
}

/// Decide what a screenshot captures from its selector flags.
pub fn plan_screenshot_target(args: &ScreenshotArgs) -> (r: Result<ScreenshotTarget, AxError>)
    ensures
        screenshot_plan(*args, r),
{
    let e = &args.element;
    let has_app_scope = e.target.app.is_some() || e.target.pid.is_some();
    let has_live_selector = e.focused || e.point.is_some() || has_app_scope;
    if args.rect.is_some() && (e.identifier.is_some() || e.path.is_some() || has_live_selector) {
        return Err(bad_target("--rect cannot be combined with element selectors"));
    }
    if e.identifier.is_some() && e.path.is_some() {
        return Err(bad_target("use only one of --identifier or --path"));
    }
    if let Some(rect) = &args.rect {
        return Ok(
            ScreenshotTarget {
                kind: ScreenshotTargetKind::Rect(rect.clone()),
                selector: rect.clone(),
            },
        );
    }
    if let Some(identifier) = &e.identifier {
        if e.focused || e.point.is_some() {
            return Err(bad_target("--identifier cannot be combined with --focused or --point"));
        }
        if !has_app_scope {
            return Err(bad_target("--identifier requires --app or --pid"));
        }
        return Ok(
            ScreenshotTarget {
                kind: ScreenshotTargetKind::Identifier(identifier.clone()),
                selector: labeled("identifier:", identifier),
            },
        );
    }
    if let Some(path) = &e.path {
        if e.focused || e.point.is_some() {
            return Err(bad_target("--path cannot be combined with --focused or --point"));
        }
        if !has_app_scope {
            return Err(bad_target("--path requires --app or --pid"));
        }
        return Ok(
            ScreenshotTarget {
                kind: ScreenshotTargetKind::Path(path.clone()),
                selector: labeled("path:", path),
            },
        );
    }
    if has_live_selector {
        return Ok(
            ScreenshotTarget {
                kind: ScreenshotTargetKind::Element,
                selector: element_selector_label(args),
            },
        );
    }
    Err(
        bad_target(
            "provide --rect or an element target (--focused, --point, --app/--pid, --identifier, or --path)",
        ),
    )
}

/// A screenshot must be saved, returned as base64, or both.
pub fn require_screenshot_output(args: &ScreenshotArgs) -> (r: Result<(), AxError>)
    ensures
        (args.out is Some || args.base64) <==> r is Ok,
        r matches Err(AxError::InvalidArgument(m)) ==> m@
            == "screenshot output requires --out <path>, --base64, or both"@,
        r is Err ==> r matches Err(AxError::InvalidArgument(_)),
{
    if args.out.is_none() && !args.base64 {
        return Err(
            AxError::InvalidArgument(
                "screenshot output requires --out <path>, --base64, or both".to_string(),
            ),
        );
    }
    Ok(())
}


// ---------------------------------------------------------------------------
// Encoding
// ---------------------------------------------------------------------------

/// Name for what the `png` crate produces for an 8-bit RGBA image of the
/// given size: the encoded file, or the text of its error.
pub uninterp spec fn png_encoding(width: u32, height: u32, rgba: Seq<u8>) -> Result<
    Seq<u8>,
    Seq<char>,
>;

/// Encodes 8-bit RGBA pixels as PNG with the `png` crate (`Encoder::new`,
/// `write_header`, `write_image_data`). The bytes, or the error's text, are
/// named by `png_encoding`; the PNG format itself is not restated here.
/// `write_image_data` multiplies the row length (four bytes a pixel) by the
/// height in `usize`, so that product must fit.
#[verifier::external_body]
fn encode_png(width: u32, height: u32, rgba: &[u8]) -> (r: std::result::Result<Vec<u8>, String>)
    requires
        (width as int) * 4 * (height as int) <= usize::MAX,
    ensures
        match r {
            Ok(v) => png_encoding(width, height, rgba@) == Ok::<Seq<u8>, Seq<char>>(v@),
            Err(e) => png_encoding(width, height, rgba@) == Err::<Seq<u8>, Seq<char>>(e@),
        },
{
    let mut cursor = std::io::Cursor::new(Vec::new());
    let mut encoder = png::Encoder::new(&mut cursor, width, height);
    encoder.set_color(png::ColorType::Rgba);
    encoder.set_depth(png::BitDepth::Eight);
    let mut writer = encoder.write_header().map_err(|err| err.to_string())?;
    writer.write_image_data(rgba).map_err(|err| err.to_string())?;
    drop(writer);
    Ok(cursor.into_inner())
}

/// Name for what the `jpeg-encoder` crate produces at quality 90 for 8-bit
/// RGB pixels of the given size: the encoded file, or the text of its error.
pub uninterp spec fn jpeg_encoding(width: u16, height: u16, rgb: Seq<u8>) -> Result<
    Seq<u8>,
    Seq<char>,
>;

/// Encodes 8-bit RGB pixels as JPEG at quality 90 with the `jpeg-encoder`
/// crate (`Encoder::new`, `encode`). The bytes, or the error's text, are
/// named by `jpeg_encoding`; the JPEG format itself is not restated here.
/// `encode` multiplies width, height and three bytes a pixel in `usize`, so
/// that product must fit.
#[verifier::external_body]
fn encode_jpeg(width: u16, height: u16, rgb: &[u8]) -> (r: std::result::Result<Vec<u8>, String>)
    requires
        (width as int) * (height as int) * 3 <= usize::MAX,
    ensures
        match r {
            Ok(v) => jpeg_encoding(width, height, rgb@) == Ok::<Seq<u8>, Seq<char>>(v@),
            Err(e) => jpeg_encoding(width, height, rgb@) == Err::<Seq<u8>, Seq<char>>(e@),
        },
{
    let mut output = Vec::new();
    let encoder = jpeg_encoder::Encoder::new(&mut output, 90);
    encoder.encode(rgb, width, height, jpeg_encoder::ColorType::Rgb).map_err(|err| err.to_string())?;
    Ok(output)
}

/// The RGB pixels of RGBA data: each complete group of four bytes loses its
/// fourth (alpha) byte; an incomplete last group is dropped.
pub open spec fn rgb_of(rgba: Seq<u8>) -> Seq<u8> {
    Seq::new((rgba.len() / 4 * 3) as nat, |k: int| rgba[(k / 3) * 4 + k % 3])
}

/// Drops the alpha byte of each RGBA pixel.
pub fn rgba_to_rgb(rgba: &[u8]) -> (r: Vec<u8>)
    ensures
        r@ == rgb_of(rgba@),
{
    let n = rgba.len() / 4;
    let mut out: Vec<u8> = Vec::new();
    let mut i: usize = 0;
    while i < n
        invariant
            n == rgba@.len() / 4,
            n == rgba.len() / 4,
            i <= n,
            out@.len() == i * 3,
            forall|k: int| 0 <= k < i * 3 ==> #[trigger] out@[k] == rgba@[(k / 3) * 4 + k % 3],
        decreases n - i,
    {
        let ghost before = out@;
        let len = rgba.len();
        assert(4 * i + 3 < len) by (nonlinear_arith)
            requires
                i < n,
                n == len / 4,
        ;
        out.push(rgba[4 * i]);
        out.push(rgba[4 * i + 1]);
        out.push(rgba[4 * i + 2]);
        assert forall|k: int| 0 <= k < (i + 1) * 3 implies #[trigger] out@[k] == rgba@[(k / 3) * 4 + k % 3] by {
            if k < i * 3 {
                assert(out@[k] == before[k]);
            } else {
                assert(k / 3 == i as int);
            }
        }
        i = i + 1;
    }
    assert(out@ =~= rgb_of(rgba@));
    out
}

/// `e` is a screenshot-unavailable error with the message `msg`.
pub open spec fn is_unavailable(e: AxError, msg: Seq<char>) -> bool {
    e matches AxError::ScreenshotUnavailable(m) && m@ == msg
}

/// What encoding a captured image gives, said of `r`.
pub open spec fn encoded_image(
    format: ScreenshotImageFormat,
    width: u32,
    height: u32,
    rgba: Seq<u8>,
    r: Result<Vec<u8>, AxError>,
) -> bool {
    match format {
        ScreenshotImageFormat::Png => if (width as int) * 4 * (height as int) > usize::MAX {
            r matches Err(e) && is_unavailable(e, "image size exceeds png limit"@)
        } else {
            match png_encoding(width, height, rgba) {
                Ok(b) => r matches Ok(v) && v@ == b,
                Err(m) => r matches Err(e) && is_unavailable(e, m),
            }
        },
        ScreenshotImageFormat::Jpeg => if width > 65535 {
            r matches Err(e) && is_unavailable(e, "image width exceeds jpeg limit"@)
        } else if height > 65535 {
            r matches Err(e) && is_unavailable(e, "image height exceeds jpeg limit"@)
        } else if (width as int) * (height as int) * 3 > usize::MAX {
            r matches Err(e) && is_unavailable(e, "image size exceeds jpeg limit"@)
        } else {
            match jpeg_encoding(width as u16, height as u16, rgb_of(rgba)) {
                Ok(b) => r matches Ok(v) && v@ == b,
                Err(m) => r matches Err(e) && is_unavailable(e, m),
            }
        },
    }
}

/// Encode captured RGBA pixels in the chosen format (JPEG drops the alpha
/// channel and needs both sides to fit in 16 bits).
pub fn encode_image(format: ScreenshotImageFormat, width: u32, height: u32, rgba: &[u8]) -> (r:
    Result<Vec<u8>, AxError>)
    ensures
        encoded_image(format, width, height, rgba@, r),
{
    match format {
        ScreenshotImageFormat::Png => {
            let w = width as u128;
            let h = height as u128;
            assert(w * 4 * h <= 0x4_0000_0000_0000_0000) by (nonlinear_arith)
                requires
                    w <= 0xffff_ffff,
                    h <= 0xffff_ffff,
            ;
            if w * 4 * h > usize::MAX as u128 {
                return Err(
                    AxError::ScreenshotUnavailable("image size exceeds png limit".to_string()),
                );
            }
            match encode_png(width, height, rgba) {
                Ok(v) => Ok(v),
                Err(m) => Err(AxError::ScreenshotUnavailable(m)),
            }
        },
        ScreenshotImageFormat::Jpeg => {
            if width > 65535 {
                return Err(
                    AxError::ScreenshotUnavailable("image width exceeds jpeg limit".to_string()),
                );
            }
            if height > 65535 {
                return Err(
                    AxError::ScreenshotUnavailable("image height exceeds jpeg limit".to_string()),
                );
            }
            let w = width as u128;
            let h = height as u128;
            assert(w * h * 3 <= 0x3_0000_0000) by (nonlinear_arith)
                requires
                    w <= 0xffff,
                    h <= 0xffff,
            ;
            if w * h * 3 > usize::MAX as u128 {
                return Err(
                    AxError::ScreenshotUnavailable("image size exceeds jpeg limit".to_string()),
                );
            }
            let rgb = rgba_to_rgb(rgba);
            match encode_jpeg(width as u16, height as u16, rgb.as_slice()) {
                Ok(v) => Ok(v),
                Err(m) => Err(AxError::ScreenshotUnavailable(m)),
            }
        },
    }
}

/// The size of a captured image in pixels, which must fit in 32 bits.
pub fn image_size(width: usize, height: usize) -> (r: Result<(u32, u32), AxError>)
    ensures
        width <= u32::MAX && height <= u32::MAX ==> r == Ok::<(u32, u32), AxError>(
            (width as u32, height as u32),
        ),
        width > u32::MAX ==> (r matches Err(e) && is_unavailable(e, "image width exceeds u32"@)),
        width <= u32::MAX && height > u32::MAX ==> (r matches Err(e) && is_unavailable(
            e,
            "image height exceeds u32"@,
        )),
{
    if width > u32::MAX as usize {
        return Err(AxError::ScreenshotUnavailable("image width exceeds u32".to_string()));
    }
    if height > u32::MAX as usize {
        return Err(AxError::ScreenshotUnavailable("image height exceeds u32".to_string()));
    }
    Ok((width as u32, height as u32))
}

// ---------------------------------------------------------------------------
// Base64
// ---------------------------------------------------------------------------

/// The character for a 6-bit value in the standard base64 alphabet.
pub open spec fn b64_char(v: int) -> char {
    if 0 <= v < 26 {
        ((v + 65) as u8) as char
    } else if 26 <= v < 52 {
        ((v - 26 + 97) as u8) as char
    } else if 52 <= v < 62 {
        ((v - 52 + 48) as u8) as char
    } else if v == 62 {
        '+'
    } else {
        '/'
    }
}

/// Standard base64 with `=` padding (RFC 4648, section 4).
pub open spec fn base64_text(b: Seq<u8>) -> Seq<char>
    decreases b.len(),
{
    if b.len() == 0 {
        Seq::empty()
    } else {
        let x = b[0] as int;
        let y = if b.len() > 1 { b[1] as int } else { 0 };
        let z = if b.len() > 2 { b[2] as int } else { 0 };
        if b.len() == 1 {
            seq![b64_char(x / 4), b64_char((x % 4) * 16), '=', '=']
        } else if b.len() == 2 {
            seq![b64_char(x / 4), b64_char((x % 4) * 16 + y / 16), b64_char((y % 16) * 4), '=']
        } else {
            seq![
                b64_char(x / 4),
                b64_char((x % 4) * 16 + y / 16),
                b64_char((y % 16) * 4 + z / 64),
                b64_char(z % 64),
            ] + base64_text(b.subrange(3, b.len() as int))
        }
    }
}

/// Standard padded base64 of the bytes, with the `base64` crate's `STANDARD`
/// engine (`Engine::encode`, which panics when the encoded length overflows
/// `usize`). The contract states RFC 4648 base64 in full.
#[verifier::external_body]
pub fn encode_base64(bytes: &[u8]) -> (r: String)
    requires
        bytes@.len() / 3 * 4 + (if bytes@.len() % 3 == 0 {
            0int
        } else {
            4int
        }) <= usize::MAX,
    ensures
        r@ == base64_text(bytes@),
{
    base64::Engine::encode(&base64::engine::general_purpose::STANDARD, bytes)
}
} // verus!
