//! The screenshot of the Studio window.
//!
//! The window system is asked by the caller; this module decides what to ask for, which window
//! to take, how large the picture may be, and what the client is answered.

use crate::base64_text::{
    base64_len, base64_text, base64_text_has_length, base64_text_within_a_megabyte, encode_base64,
};
use crate::imaging::{
    buffer_fits, checked_pixels, encode_png, encoding_view, png_bound, png_encoding, resample,
    resampled,
};
use crate::mcp::{ErrorKind, ToolError, ToolOutcome, ToolReply};
use crate::scaling::{
    exceeds_limit, fit_within_limit, longest_side, scaled_side, scaled_side_keeps_orientation,
    scaled_side_within_limit, MAX_DIMENSION,
};
use vstd::prelude::*;
use vstd::string::StringExecFns;

verus! {

/// The window system that the server runs under.
#[derive(Debug, Clone, Copy, PartialEq, Eq, Structural)]
pub enum Platform {
    Windows,
    MacOs,
    Other,
}

/// A picture with four bytes a pixel: red, green, blue and opacity.
#[derive(Debug, PartialEq, Eq)]
pub struct RawImage {
    pub width: u32,
    pub height: u32,
    pub pixels: Vec<u8>,
}

/// What happens to the request for a screenshot.
pub enum CaptureEvent {
    /// The request has come in.
    Requested,
    /// The open windows are known by their titles, or could not be listed for the reason in the
    /// text. A title is missing where the window system does not give it.
    WindowsListed(Result<Vec<Option<String>>, String>),
    /// The window with this index is minimized or not, where the window system says so.
    MinimizedChecked { index: usize, minimized: Option<bool> },
    /// The window has been captured, or could not be for the reason in the text.
    Captured(Result<RawImage, String>),
}

/// What is to be done for a screenshot.
pub enum CaptureAction {
    /// List the open windows.
    ListWindows,
    /// Find out whether the window with this index is minimized.
    CheckMinimized(usize),
    /// Capture the window with this index.
    Capture(usize),
    /// Answer the client.
    Finish(ToolOutcome),
    /// Panic: the picture or its text is larger than an allocation can be, or there are more
    /// bytes than the picture has.
    Abort,
}

/// Whether `part` occurs in `text`.
pub open spec fn contains_text(text: Seq<char>, part: Seq<char>) -> bool {
    exists|i: int|
        0 <= i <= text.len() - part.len() && #[trigger] text.subrange(i, i + part.len()) == part
}

/// Whether a window with this title is the one of Studio.
pub open spec fn is_studio_title(title: Option<String>) -> bool {
    title matches Some(text) && contains_text(text@, "Roblox Studio"@)
}

/// `str::contains` with a string to look for: whether it occurs in the text.
#[verifier::external_body]
fn text_contains(text: &str, part: &str) -> (found: bool)
    ensures
        found == contains_text(text@, part@),
{
    text.contains(part)
}

/// The first of the windows that is the one of Studio.
pub fn find_studio_window(titles: &Vec<Option<String>>) -> (index: Option<usize>)
    ensures
        match index {
            Some(found) => {
                &&& found < titles@.len()
                &&& is_studio_title(titles@[found as int])
                &&& forall|j: int| 0 <= j < found ==> !is_studio_title(#[trigger] titles@[j])
            },
            None => forall|j: int|
                0 <= j < titles@.len() ==> !is_studio_title(#[trigger] titles@[j]),
        },
{
    let mut i: usize = 0;
    while i < titles.len()
        invariant
            i <= titles@.len(),
            forall|j: int| 0 <= j < i ==> !is_studio_title(#[trigger] titles@[j]),
        decreases titles@.len() - i,
    {
        if let Some(title) = &titles[i] {
            if text_contains(title.as_str(), "Roblox Studio") {
                return Some(i);
            }
        }
        i += 1;
    }
    None
}

/// An error with this kind and text.
pub open spec fn fails_with(outcome: ToolOutcome, kind: ErrorKind, text: Seq<char>) -> bool {
    outcome matches Err(error) && error.kind == kind && error.message@ == text
}

/// The image with this base64 text is answered.
pub open spec fn shows_png(outcome: ToolOutcome, data: Seq<char>) -> bool {
    outcome matches Ok(ToolReply::Image { data: shown, mime_type }) && shown@ == data
        && mime_type@ == "image/png"@
}

fn failure(kind: ErrorKind, text: &str) -> (outcome: ToolOutcome)
    ensures
        fails_with(outcome, kind, text@),
{
    Err(ToolError { kind, message: text.to_string() })
}

fn failure_because(kind: ErrorKind, text: &str, reason: &str) -> (outcome: ToolOutcome)
    ensures
        fails_with(outcome, kind, text@ + reason@),
{
    Err(ToolError { kind, message: text.to_string().concat(reason) })
}

/// What a screenshot ends in.
pub enum Shot {
    /// The buffer is too small for the size of the picture.
    BadBuffer,
    /// The picture could not be encoded, for the reason in the text.
    NotEncoded(Seq<char>),
    /// The PNG file, in base64.
    Png(Seq<char>),
    /// There is no answer: see [`CaptureAction::Abort`].
    Abort,
}

/// What an encoded picture ends in.
pub open spec fn shot_of_encoding(png: Result<Seq<u8>, Seq<char>>) -> Shot {
    match png {
        Err(text) => Shot::NotEncoded(text),
        Ok(bytes) => if base64_len(bytes.len()) <= isize::MAX {
            Shot::Png(base64_text(bytes))
        } else {
            Shot::Abort
        },
    }
}

/// The size in which a captured picture is sent.
pub open spec fn sent_size(width: u32, height: u32) -> (u32, u32) {
    if exceeds_limit(width, height) {
        let longest = longest_side(width, height) as nat;
        (
            scaled_side(width as nat, longest) as u32,
            scaled_side(height as nat, longest) as u32,
        )
    } else {
        (width, height)
    }
}

/// No picture is sent with a side above the limit, one within the limit is sent in its own size,
/// and the shorter side stays the shorter one.
pub proof fn sent_picture_is_within_limit(width: u32, height: u32)
    ensures
        sent_size(width, height).0 <= MAX_DIMENSION,
        sent_size(width, height).1 <= MAX_DIMENSION,
        width <= MAX_DIMENSION && height <= MAX_DIMENSION ==> sent_size(width, height) == (
            width,
            height,
        ),
        width <= height ==> sent_size(width, height).0 <= sent_size(width, height).1,
        height <= width ==> sent_size(width, height).1 <= sent_size(width, height).0,
{
    if exceeds_limit(width, height) {
        let longest = longest_side(width, height) as nat;
        scaled_side_within_limit(width as nat, longest);
        scaled_side_within_limit(height as nat, longest);
        if width <= height {
            scaled_side_keeps_orientation(width as nat, height as nat, longest);
        }
        if height <= width {
            scaled_side_keeps_orientation(height as nat, width as nat, longest);
        }
    }
}

/// What a captured picture ends in: a picture with a side above the limit is scaled down, and
/// then it is encoded.
pub open spec fn shot_of_capture(width: u32, height: u32, pixels: Seq<u8>) -> Shot {
    if !buffer_fits(width, height, pixels.len()) {
        Shot::BadBuffer
    } else if exceeds_limit(width, height) {
        let (w, h) = sent_size(width, height);
        if 16 * (width * h) <= isize::MAX {
            shot_of_encoding(png_encoding(w, h, resampled(width, height, pixels, w, h)))
        } else {
            Shot::Abort
        }
    } else if pixels.len() == 4 * (width * height) {
        shot_of_encoding(png_encoding(width, height, pixels))
    } else {
        Shot::Abort
    }
}

/// Whether a picture cannot be rendered although its buffer is large enough: what it is scaled on
/// does not fit into an allocation, or there are more bytes than the picture has.
pub open spec fn cannot_be_rendered(width: u32, height: u32, len: nat) -> bool {
    if exceeds_limit(width, height) {
        16 * (width * sent_size(width, height).1) > isize::MAX
    } else {
        len != 4 * (width * height)
    }
}

/// Whether `shot` is what a captured picture of this size, in a buffer of `len` bytes, has to end
/// in, whatever it shows.
pub open spec fn follows_from_size(width: u32, height: u32, len: nat, shot: Shot) -> bool {
    let (w, h) = sent_size(width, height);
    if !buffer_fits(width, height, len) {
        shot is BadBuffer
    } else if cannot_be_rendered(width, height, len) {
        shot is Abort
    } else if w == 0 || h == 0 {
        shot is NotEncoded
    } else {
        shot matches Shot::Png(data) && data.len() <= base64_len(png_bound(w, h))
    }
}

proof fn lemma_encoding_is_answered(width: u32, height: u32, png: Result<Seq<u8>, Seq<char>>)
    requires
        width <= MAX_DIMENSION,
        height <= MAX_DIMENSION,
        (png is Ok) == (width > 0 && height > 0),
        png matches Ok(bytes) ==> bytes.len() <= png_bound(width, height),
    ensures
        if width > 0 && height > 0 {
            shot_of_encoding(png) matches Shot::Png(data) && data.len() <= base64_len(
                png_bound(width, height),
            )
        } else {
            shot_of_encoding(png) is NotEncoded
        },
{
    assert(0 <= (4 * width + 1) * height <= 5121 * 1280) by (nonlinear_arith)
        requires
            0 <= width <= 1280,
            0 <= height <= 1280,
    ;
    if let Ok(bytes) = png {
        base64_text_has_length(bytes);
    }
}

/// The text of an answered picture stays within one megabyte exactly if its file has at most
/// 786 432 bytes.
pub proof fn answer_within_a_megabyte(png: Seq<u8>)
    ensures
        shot_of_encoding(Ok(png)) matches Shot::Png(data) ==> (data.len() <= 1_048_576) == (
        png.len() <= 786_432),
{
    base64_text_within_a_megabyte(png);
}

/// A picture that is sent with at most 786 309 bytes, those in front of the rows counted, is
/// answered with a text within one megabyte, whatever it shows.
pub proof fn small_picture_within_a_megabyte(width: u32, height: u32, len: nat, shot: Shot)
    requires
        follows_from_size(width, height, len, shot),
        (4 * sent_size(width, height).0 + 1) * sent_size(width, height).1 <= 786_309,
    ensures
        shot matches Shot::Png(data) ==> data.len() <= 1_048_576,
{
    let (w, h) = sent_size(width, height);
    assert(0 <= (4 * w + 1) * h) by (nonlinear_arith)
        requires
            0 <= w,
            0 <= h,
    ;
}

/// Whether `action` answers the client what `shot` says.
pub open spec fn answers_shot(action: CaptureAction, shot: Shot) -> bool {
    match shot {
        Shot::BadBuffer => {
            &&& action matches CaptureAction::Finish(outcome)
            &&& fails_with(
                outcome,
                ErrorKind::Internal,
                "Failed to create image from capture buffer"@,
            )
        },
        Shot::NotEncoded(text) => {
            &&& action matches CaptureAction::Finish(outcome)
            &&& fails_with(
                outcome,
                ErrorKind::Internal,
                "Failed to encode screenshot as PNG: "@ + text,
            )
        },
        Shot::Png(data) => {
            &&& action matches CaptureAction::Finish(outcome)
            &&& shows_png(outcome, data)
        },
        Shot::Abort => action is Abort,
    }
}

/// Answers the client with an encoded picture.
pub fn finish_screenshot(png: Result<Vec<u8>, String>) -> (action: CaptureAction)
    ensures
        answers_shot(action, shot_of_encoding(encoding_view(png))),
{
    match png {
        Err(text) => CaptureAction::Finish(
            failure_because(
                ErrorKind::Internal,
                "Failed to encode screenshot as PNG: ",
                text.as_str(),
            ),
        ),
        Ok(bytes) => {
            let groups: u128 = (bytes.len() as u128 + 2) / 3;
            if groups * 4 <= isize::MAX as u128 {
                CaptureAction::Finish(
                    Ok(
                        ToolReply::Image {
                            data: encode_base64(&bytes),
                            mime_type: "image/png".to_string(),
                        },
                    ),
                )
            } else {
                CaptureAction::Abort
            }
        },
    }
}

/// Turns a captured picture into the answer to the client.
pub fn render_screenshot(image: RawImage) -> (action: CaptureAction)
    ensures
        answers_shot(action, shot_of_capture(image.width, image.height, image.pixels@)),
        follows_from_size(
            image.width,
            image.height,
            image.pixels@.len(),
            shot_of_capture(image.width, image.height, image.pixels@),
        ),
        (action is Abort) == (buffer_fits(image.width, image.height, image.pixels@.len())
            && cannot_be_rendered(image.width, image.height, image.pixels@.len())),
{
    let RawImage { width, height, pixels } = image;
    match checked_pixels(width, height, pixels) {
        None => CaptureAction::Finish(
            failure(ErrorKind::Internal, "Failed to create image from capture buffer"),
        ),
        Some(pixels) => match fit_within_limit(width, height) {
            Some((w, h)) => {
                assert(width * h <= 0xffff_ffff * 0xffff_ffff) by (nonlinear_arith)
                    requires
                        0 <= width <= 0xffff_ffff,
                        0 <= h <= 0xffff_ffff,
                ;
                if 16 * (width as u128 * h as u128) <= isize::MAX as u128 {
                    let resized = resample(width, height, pixels, w, h);
                    let png = encode_png(w, h, &resized);
                    proof {
                        lemma_encoding_is_answered(w, h, encoding_view(png));
                    }
                    finish_screenshot(png)
                } else {
                    CaptureAction::Abort
                }
            },
            None => {
                assert(width * height <= 1280 * 1280) by (nonlinear_arith)
                    requires
                        0 <= width <= 1280,
                        0 <= height <= 1280,
                ;
                if pixels.len() as u64 == 4 * (width as u64 * height as u64) {
                    let png = encode_png(width, height, &pixels);
                    proof {
                        lemma_encoding_is_answered(width, height, encoding_view(png));
                    }
                    finish_screenshot(png)
                } else {
                    CaptureAction::Abort
                }
            },
        },
    }
}

/// What a screenshot asks for next, or what the client is answered.
pub open spec fn capture_step(platform: Platform, event: CaptureEvent, action: CaptureAction) -> bool {
    if platform == Platform::Other {
        &&& action matches CaptureAction::Finish(outcome)
        &&& fails_with(
            outcome,
            ErrorKind::InvalidRequest,
            "Screenshot tool is only available on Windows and macOS"@,
        )
    } else {
        match event {
            CaptureEvent::Requested => action is ListWindows,
            CaptureEvent::WindowsListed(Err(text)) => {
                &&& action matches CaptureAction::Finish(outcome)
                &&& fails_with(
                    outcome,
                    ErrorKind::Internal,
                    "Failed to enumerate windows: "@ + text@,
                )
            },
            CaptureEvent::WindowsListed(Ok(titles)) => {
                ||| exists|i: int|
                    {
                        &&& 0 <= i < titles@.len()
                        &&& is_studio_title(#[trigger] titles@[i])
                        &&& forall|j: int| 0 <= j < i ==> !is_studio_title(#[trigger] titles@[j])
                        &&& action == (if platform == Platform::MacOs {
                            CaptureAction::CheckMinimized(i as usize)
                        } else {
                            CaptureAction::Capture(i as usize)
                        })
                    }
                ||| {
                    &&& forall|j: int|
                        0 <= j < titles@.len() ==> !is_studio_title(#[trigger] titles@[j])
                    &&& action matches CaptureAction::Finish(outcome)
                    &&& fails_with(
                        outcome,
                        ErrorKind::InvalidRequest,
                        "Roblox Studio window not found. Make sure Roblox Studio is open."@,
                    )
                }
            },
            CaptureEvent::MinimizedChecked { index, minimized } => if minimized == Some(true) {
                &&& action matches CaptureAction::Finish(outcome)
                &&& fails_with(
                    outcome,
                    ErrorKind::InvalidRequest,
                    "Roblox Studio window is minimized. Please restore the window before taking a screenshot — macOS cannot capture minimized windows."@,
                )
            } else {
                action == CaptureAction::Capture(index)
            },
            CaptureEvent::Captured(Err(text)) => {
                &&& action matches CaptureAction::Finish(outcome)
                &&& fails_with(
                    outcome,
                    ErrorKind::Internal,
                    "Failed to capture Roblox Studio window: "@ + text@ + (if platform
                        == Platform::MacOs {
                        ". On macOS, ensure Screen Recording permission is granted in System Settings > Privacy & Security > Screen Recording."@
                    } else {
                        ""@
                    }),
                )
            },
            CaptureEvent::Captured(Ok(image)) => answers_shot(
                action,
                shot_of_capture(image.width, image.height, image.pixels@),
            ),
        }
    }
}

/// One step of a screenshot: the windows are listed, the first one of Studio is taken unless it
/// is known to be minimized, and the picture of it goes to the client as a PNG image.
pub fn capture_studio_screenshot(platform: Platform, event: CaptureEvent) -> (action: CaptureAction)
    ensures
        capture_step(platform, event, action),
        platform != Platform::Other ==> (event matches CaptureEvent::Captured(Ok(image)) ==> {
            let RawImage { width, height, pixels } = image;
            &&& follows_from_size(
                width,
                height,
                pixels@.len(),
                shot_of_capture(width, height, pixels@),
            )
            &&& (action is Abort) == (buffer_fits(width, height, pixels@.len())
                && cannot_be_rendered(width, height, pixels@.len()))
        }),
{
    if platform == Platform::Other {
        return CaptureAction::Finish(
            failure(
                ErrorKind::InvalidRequest,
                "Screenshot tool is only available on Windows and macOS",
            ),
        );
    }
    match event {
        CaptureEvent::Requested => CaptureAction::ListWindows,
        CaptureEvent::WindowsListed(Err(text)) => CaptureAction::Finish(
            failure_because(ErrorKind::Internal, "Failed to enumerate windows: ", text.as_str()),
        ),
        CaptureEvent::WindowsListed(Ok(titles)) => match find_studio_window(&titles) {
            Some(index) => if platform == Platform::MacOs {
                CaptureAction::CheckMinimized(index)
            } else {
                CaptureAction::Capture(index)
            },
            None => CaptureAction::Finish(
                failure(
                    ErrorKind::InvalidRequest,
                    "Roblox Studio window not found. Make sure Roblox Studio is open.",
                ),
            ),
        },
        CaptureEvent::MinimizedChecked { index, minimized } => {
            if let Some(true) = minimized {
                CaptureAction::Finish(
                    failure(
                        ErrorKind::InvalidRequest,
                        "Roblox Studio window is minimized. Please restore the window before taking a screenshot — macOS cannot capture minimized windows.",
                    ),
                )
            } else {
                CaptureAction::Capture(index)
            }
        },
        CaptureEvent::Captured(Err(text)) => {
            let hint = if platform == Platform::MacOs {
                ". On macOS, ensure Screen Recording permission is granted in System Settings > Privacy & Security > Screen Recording."
            } else {
                ""
            };
            let mut message = "Failed to capture Roblox Studio window: ".to_string();
            message.append(text.as_str());
            CaptureAction::Finish(
                failure_because(ErrorKind::Internal, message.as_str(), hint),
            )
        },
        CaptureEvent::Captured(Ok(image)) => render_screenshot(image),
    }
}

} // verus!
