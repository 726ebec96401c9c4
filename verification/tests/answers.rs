use base64::Engine;
use rbx_studio_server::about::{get_info, Capabilities, ToolsOffer, INSTRUCTIONS};
use rbx_studio_server::mcp::{into_protocol, ErrorKind, ToolError, ToolOutcome, ToolReply};
use rbx_studio_server::scaling::{fit_within_limit, scale_side, MAX_DIMENSION};
use rbx_studio_server::screenshot::{
    capture_studio_screenshot, find_studio_window, finish_screenshot, render_screenshot,
    CaptureAction, CaptureEvent, Platform, RawImage,
};

fn fails(action: CaptureAction, kind: ErrorKind, message: &str) {
    let CaptureAction::Finish(outcome) = action else { panic!("not finished") };
    assert_eq!(outcome, Err(ToolError { kind, message: message.to_string() }));
}

fn image_data(action: CaptureAction) -> String {
    let CaptureAction::Finish(Ok(ToolReply::Image { data, mime_type })) = action else {
        panic!("no image")
    };
    assert_eq!(mime_type, "image/png");
    data
}

fn decoded(action: CaptureAction) -> image::RgbaImage {
    let png = base64::engine::general_purpose::STANDARD.decode(image_data(action)).unwrap();
    image::load_from_memory(&png).unwrap().to_rgba8()
}

fn plain(width: u32, height: u32) -> RawImage {
    let mut pixels = Vec::new();
    for _ in 0..(width as usize * height as usize) {
        pixels.extend_from_slice(&[10, 200, 30, 255]);
    }
    RawImage { width, height, pixels }
}

fn noise(width: u32, height: u32) -> RawImage {
    let mut seed: u32 = 1;
    let mut pixels = Vec::new();
    for _ in 0..4 * width * height {
        seed = seed.wrapping_mul(1_664_525).wrapping_add(1_013_904_223);
        pixels.push((seed >> 24) as u8);
    }
    RawImage { width, height, pixels }
}

fn titles(names: &[&str]) -> Vec<Option<String>> {
    names.iter().map(|name| Some(name.to_string())).collect()
}

#[test]
fn text_answers_take_the_form_of_the_protocol() {
    for is_error in [false, true] {
        let outcome: ToolOutcome = Ok(ToolReply::Text { text: "hello".to_string(), is_error });
        let result = into_protocol(outcome).unwrap();
        assert_eq!(result.is_error, Some(is_error));
        assert_eq!(result.content.len(), 1);
        assert_eq!(result.content[0].as_text().unwrap().text, "hello");
    }
}

#[test]
fn image_answers_take_the_form_of_the_protocol() {
    let outcome: ToolOutcome =
        Ok(ToolReply::Image { data: "TWFu".to_string(), mime_type: "image/png".to_string() });
    let result = into_protocol(outcome).unwrap();
    assert_eq!(result.is_error, Some(false));
    assert_eq!(result.content.len(), 1);
    let image = result.content[0].as_image().unwrap();
    assert_eq!(image.data, "TWFu");
    assert_eq!(image.mime_type, "image/png");
}

#[test]
fn errors_take_the_form_of_the_protocol() {
    let internal = ToolError { kind: ErrorKind::Internal, message: "broken".to_string() };
    let error = into_protocol(Err(internal)).unwrap_err();
    assert_eq!(error.code.0, -32603);
    assert_eq!(error.message, "broken");
    assert!(error.data.is_none());
    let invalid = ToolError { kind: ErrorKind::InvalidRequest, message: "wrong".to_string() };
    let error = into_protocol(Err(invalid)).unwrap_err();
    assert_eq!(error.code.0, -32600);
    assert_eq!(error.message, "wrong");
}

#[test]
fn server_describes_itself() {
    let info = get_info("1.2.3");
    assert_eq!(info.protocol_version, "2025-03-26");
    assert_eq!(info.protocol_version, rmcp::model::ProtocolVersion::LATEST.to_string());
    assert_eq!(
        info.capabilities,
        Capabilities {
            experimental: false,
            logging: false,
            completions: false,
            prompts: false,
            resources: false,
            tools: Some(ToolsOffer { list_changed: None }),
        }
    );
    assert_eq!(info.icons, None);
    assert_eq!(info.website_url, None);
    assert_eq!(info.name, "Roblox_Studio");
    assert_eq!(info.version, "1.2.3");
    assert_eq!(info.title.as_deref(), Some("Roblox Studio MCP Server"));
    assert_eq!(info.instructions.as_deref(), Some(INSTRUCTIONS));
    assert!(INSTRUCTIONS.starts_with("You must be aware of current studio mode"));
    assert!(INSTRUCTIONS.ends_with("on the server datamodel.\n"));
    assert_eq!(INSTRUCTIONS.lines().count(), 4);
}

#[test]
fn small_pictures_are_not_scaled() {
    assert_eq!(fit_within_limit(1280, 1280), None);
    assert_eq!(fit_within_limit(0, 0), None);
    assert_eq!(fit_within_limit(1, 1280), None);
}

#[test]
fn large_pictures_are_scaled_to_the_limit() {
    assert_eq!(fit_within_limit(1920, 1080), Some((1280, 720)));
    assert_eq!(fit_within_limit(1080, 1920), Some((720, 1280)));
    assert_eq!(fit_within_limit(2560, 1440), Some((1280, 720)));
    assert_eq!(fit_within_limit(3840, 2160), Some((1280, 720)));
    assert_eq!(fit_within_limit(1281, 1281), Some((1280, 1280)));
    assert_eq!(fit_within_limit(1, 4000), Some((0, 1280)));
    assert_eq!(fit_within_limit(4000, 0), Some((1280, 0)));
}

#[test]
fn rounding_of_the_factor_can_cost_a_pixel() {
    assert_eq!(fit_within_limit(2139, 1000), Some((1279, 598)));
    assert_eq!(fit_within_limit(1610, 161), Some((1280, 127)));
}

#[test]
fn scaling_agrees_with_double_precision() {
    let mut longest: u32 = 1281;
    while longest < 4_000_000_000 {
        let factor = 1280f64 / longest as f64;
        for side in [
            0,
            1,
            longest / 7,
            longest / 3,
            longest / 2,
            longest - longest / 10,
            longest - 1,
            longest,
        ] {
            let expected = (side as f64 * factor) as u32;
            assert_eq!(scale_side(side, longest), expected, "{side} of {longest}");
            assert!(expected <= MAX_DIMENSION);
        }
        longest += 1 + longest / 700;
    }
    for longest in [u32::MAX, u32::MAX - 1, 1 << 31, 2560, 5120] {
        let factor = 1280f64 / longest as f64;
        for side in [longest, longest - 1, longest / 2] {
            assert_eq!(scale_side(side, longest), (side as f64 * factor) as u32);
        }
    }
}

#[test]
fn scaling_agrees_with_double_precision_on_every_screen() {
    for longest in 1281u32..6000 {
        let factor = 1280f64 / longest as f64;
        let mut last = 0;
        for side in (0..=longest).rev().step_by(97) {
            let scaled = scale_side(side, longest);
            assert_eq!(scaled, (side as f64 * factor) as u32);
            assert!(scaled * longest <= 1280 * side && 1280 * side <= (scaled + 1) * longest);
            assert!(side == longest || scaled <= last);
            last = scaled;
        }
        assert!((1279..=1280).contains(&scale_side(longest, longest)));
    }
}

#[test]
fn files_are_sent_in_base64() {
    for (bytes, text) in [
        (&b""[..], ""),
        (&b"M"[..], "TQ=="),
        (&b"Ma"[..], "TWE="),
        (&b"Man"[..], "TWFu"),
        (&b"foobar"[..], "Zm9vYmFy"),
        (&[0xfb, 0xff, 0xfe][..], "+//+"),
        (&[0x00, 0x10, 0x83, 0x10, 0x51, 0x87][..], "ABCDEFGH"),
    ] {
        assert_eq!(image_data(finish_screenshot(Ok(bytes.to_vec()))), text);
    }
}

#[test]
fn base64_takes_four_characters_for_three_bytes() {
    let data = image_data(finish_screenshot(Ok(vec![7; 750_000])));
    assert_eq!(data.len(), 1_000_000);
    assert_eq!(image_data(finish_screenshot(Ok(vec![7; 10]))).len(), 16);
}

#[test]
fn text_is_within_a_megabyte_with_its_file() {
    assert_eq!(image_data(finish_screenshot(Ok(vec![7; 786_432]))).len(), 1_048_576);
    assert_eq!(image_data(finish_screenshot(Ok(vec![7; 786_433]))).len(), 1_048_580);
}

#[test]
fn length_of_the_text_is_bounded_by_the_size() {
    for (width, height) in [(1u32, 1u32), (1, 1280), (1280, 1), (327, 200), (443, 443), (700, 500)] {
        let image = noise(width, height);
        let data = image_data(render_screenshot(image));
        let raw = ((4 * width + 1) * height) as usize;
        let bound = raw + 5 * (raw / 65_535) + 68;
        assert!(data.len() <= bound.div_ceil(3) * 4, "{width} x {height}");
        assert!(raw > 786_309 || data.len() <= 1_048_576);
    }
}

#[test]
fn picture_that_cannot_be_compressed_is_stored() {
    let shown = image_data(render_screenshot(noise(443, 443)));
    let raw = (4 * 443 + 1) * 443;
    assert_eq!(shown.len(), (raw + 5 * (raw / 65_535) + 68usize).div_ceil(3) * 4);
    assert!(shown.len() <= 1_048_576);
}

#[test]
fn large_noise_goes_over_a_megabyte() {
    assert!(image_data(render_screenshot(noise(700, 500))).len() > 1_048_576);
}

#[test]
fn failed_encoding_is_reported() {
    fails(
        finish_screenshot(Err("no room".to_string())),
        ErrorKind::Internal,
        "Failed to encode screenshot as PNG: no room",
    );
}

#[test]
fn small_picture_is_sent_as_it_is() {
    let pixels: Vec<u8> = (0..2 * 3 * 4).map(|i| i as u8 * 7).collect();
    let image = RawImage { width: 2, height: 3, pixels: pixels.clone() };
    let shown = decoded(render_screenshot(image));
    assert_eq!(shown.dimensions(), (2, 3));
    assert_eq!(shown.into_raw(), pixels);
}

#[test]
fn large_picture_is_sent_scaled() {
    let shown = decoded(render_screenshot(plain(2560, 10)));
    assert_eq!(shown.dimensions(), (1280, 5));
    for pixel in shown.pixels() {
        assert_eq!(pixel.0, [10, 200, 30, 255]);
    }
    let shown = decoded(render_screenshot(plain(4, 2139)));
    assert_eq!(shown.dimensions(), (2, 1279));
}

#[test]
fn buffer_that_is_too_small_is_refused() {
    for (width, height, len) in [(2, 2, 15), (2000, 2, 100), (1, 1, 0), (u32::MAX, u32::MAX, 4)] {
        let image = RawImage { width, height, pixels: vec![0; len] };
        fails(
            render_screenshot(image),
            ErrorKind::Internal,
            "Failed to create image from capture buffer",
        );
    }
}

#[test]
fn buffer_that_is_too_large_aborts_unless_scaled() {
    let image = RawImage { width: 2, height: 2, pixels: vec![0; 17] };
    assert!(matches!(render_screenshot(image), CaptureAction::Abort));
    let mut image = plain(2560, 2);
    image.pixels.push(0);
    assert_eq!(decoded(render_screenshot(image)).dimensions(), (1280, 1));
}

#[test]
fn empty_picture_cannot_be_encoded() {
    for (width, height, len) in [(0, 0, 0), (0, 5, 0), (5, 0, 0), (1, 4000, 16000)] {
        let image = RawImage { width, height, pixels: vec![0; len] };
        let CaptureAction::Finish(Err(error)) = render_screenshot(image) else {
            panic!("encoded")
        };
        assert_eq!(error.kind, ErrorKind::Internal);
        assert!(error.message.starts_with("Failed to encode screenshot as PNG: "));
        assert!(error.message.len() > "Failed to encode screenshot as PNG: ".len());
    }
}

#[test]
fn first_window_of_studio_is_taken() {
    assert_eq!(find_studio_window(&titles(&["Mail", "Game - Roblox Studio", "Roblox Studio"])), Some(1));
    assert_eq!(find_studio_window(&titles(&["Roblox", "Studio", "roblox studio"])), None);
    assert_eq!(find_studio_window(&titles(&[])), None);
    assert_eq!(find_studio_window(&vec![None, Some("xRoblox Studiox".to_string())]), Some(1));
    assert_eq!(find_studio_window(&titles(&["Roblox Studi", "ü Roblox Studio"])), Some(1));
}

#[test]
fn other_platforms_have_no_screenshots() {
    for event in [CaptureEvent::Requested, CaptureEvent::Captured(Ok(plain(1, 1)))] {
        fails(
            capture_studio_screenshot(Platform::Other, event),
            ErrorKind::InvalidRequest,
            "Screenshot tool is only available on Windows and macOS",
        );
    }
}

#[test]
fn screenshot_starts_with_the_list_of_windows() {
    for platform in [Platform::Windows, Platform::MacOs] {
        let action = capture_studio_screenshot(platform, CaptureEvent::Requested);
        assert!(matches!(action, CaptureAction::ListWindows));
        let failed = CaptureEvent::WindowsListed(Err("denied".to_string()));
        fails(
            capture_studio_screenshot(platform, failed),
            ErrorKind::Internal,
            "Failed to enumerate windows: denied",
        );
        let missing = CaptureEvent::WindowsListed(Ok(titles(&["Mail"])));
        fails(
            capture_studio_screenshot(platform, missing),
            ErrorKind::InvalidRequest,
            "Roblox Studio window not found. Make sure Roblox Studio is open.",
        );
    }
}

#[test]
fn only_macos_looks_whether_the_window_is_minimized() {
    let listed = || CaptureEvent::WindowsListed(Ok(titles(&["a", "Roblox Studio"])));
    let action = capture_studio_screenshot(Platform::Windows, listed());
    assert!(matches!(action, CaptureAction::Capture(1)));
    let action = capture_studio_screenshot(Platform::MacOs, listed());
    assert!(matches!(action, CaptureAction::CheckMinimized(1)));
    for minimized in [None, Some(false)] {
        let event = CaptureEvent::MinimizedChecked { index: 1, minimized };
        let action = capture_studio_screenshot(Platform::MacOs, event);
        assert!(matches!(action, CaptureAction::Capture(1)));
    }
    let event = CaptureEvent::MinimizedChecked { index: 1, minimized: Some(true) };
    fails(
        capture_studio_screenshot(Platform::MacOs, event),
        ErrorKind::InvalidRequest,
        "Roblox Studio window is minimized. Please restore the window before taking a screenshot — macOS cannot capture minimized windows.",
    );
}

#[test]
fn failed_capture_is_reported() {
    let failed = || CaptureEvent::Captured(Err("busy".to_string()));
    fails(
        capture_studio_screenshot(Platform::Windows, failed()),
        ErrorKind::Internal,
        "Failed to capture Roblox Studio window: busy",
    );
    fails(
        capture_studio_screenshot(Platform::MacOs, failed()),
        ErrorKind::Internal,
        "Failed to capture Roblox Studio window: busy. On macOS, ensure Screen Recording permission is granted in System Settings > Privacy & Security > Screen Recording.",
    );
}

#[test]
fn captured_picture_is_answered() {
    let event = CaptureEvent::Captured(Ok(plain(3, 2)));
    let shown = decoded(capture_studio_screenshot(Platform::MacOs, event));
    assert_eq!(shown.dimensions(), (3, 2));
}
