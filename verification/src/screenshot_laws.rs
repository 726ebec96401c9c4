//! What holds of screenshots as a whole: which window is captured, and what the client is told.
//!
//! The laws speak of every action that a step allows, and of the form in which it reaches the
//! client.

use crate::base64_text::base64_text;
use crate::imaging::{encoding_view, png_encoding, resampled};
use crate::mcp::{
    internal_failure_error, invalid_request_error, protocol_form, success_with_image, ErrorKind,
    ToolOutcome,
};
use crate::scaling::{scaled_side, scaled_side_within_limit};
use crate::screenshot::{
    answers_shot, capture_step, contains_text, fails_with, is_studio_title, sent_size,
    shot_of_capture, shot_of_encoding, shows_png, CaptureAction, CaptureEvent, Platform, RawImage,
};
use vstd::prelude::*;

verus! {

/// A text contains exactly those parts that it can be put together with.
pub proof fn text_contains_its_parts(
    text: Seq<char>,
    part: Seq<char>,
    before: Seq<char>,
    after: Seq<char>,
)
    ensures
        contains_text(before + part + after, part),
        contains_text(text, part) ==> exists|head: Seq<char>, tail: Seq<char>|
            text == #[trigger] (head + part + tail),
{
    let whole = before + part + after;
    assert(whole.subrange(before.len() as int, (before.len() + part.len()) as int) =~= part);
    if contains_text(text, part) {
        let i = choose|i: int|
            0 <= i <= text.len() - part.len() && #[trigger] text.subrange(i, i + part.len())
                == part;
        let found = text.subrange(i, i + part.len());
        let head = text.take(i);
        let tail = text.skip(i + part.len());
        assert(text =~= head + found + tail);
        assert(text == head + part + tail);
    }
}

/// A window is one of Studio exactly if its title is known and has "Roblox Studio" in it.
pub proof fn studio_is_known_by_its_title(
    title: Option<String>,
    before: Seq<char>,
    after: Seq<char>,
)
    ensures
        match title {
            Some(text) => {
                &&& text@ == before + "Roblox Studio"@ + after ==> is_studio_title(title)
                &&& is_studio_title(title) ==> exists|head: Seq<char>, tail: Seq<char>|
                    text@ == #[trigger] (head + "Roblox Studio"@ + tail)
            },
            None => !is_studio_title(title),
        },
{
    if let Some(text) = title {
        text_contains_its_parts(text@, "Roblox Studio"@, before, after);
    }
}

/// A failure reaches the client with its kind and its text.
pub proof fn client_is_told_of_the_failure(outcome: ToolOutcome, text: Seq<char>)
    ensures
        fails_with(outcome, ErrorKind::InvalidRequest, text) ==> (protocol_form(outcome) matches Err(
            told,
        ) && told == invalid_request_error(text)),
        fails_with(outcome, ErrorKind::Internal, text) ==> (protocol_form(outcome) matches Err(told)
            && told == internal_failure_error(text)),
{
}

/// A picture reaches the client as a PNG image.
pub proof fn client_is_shown_a_png(outcome: ToolOutcome, data: Seq<char>)
    ensures
        shows_png(outcome, data) ==> (protocol_form(outcome) matches Ok(shown) && shown
            == success_with_image(data, "image/png"@)),
{
}

/// Without a window system that is known, whatever happens, the client is told so.
pub proof fn screenshots_need_a_known_platform(event: CaptureEvent, action: CaptureAction)
    requires
        capture_step(Platform::Other, event, action),
    ensures
        action matches CaptureAction::Finish(outcome) && (protocol_form(outcome) matches Err(told)
            && told == invalid_request_error(
            "Screenshot tool is only available on Windows and macOS"@,
        )),
{
}

/// A screenshot begins with the list of the windows; where there is none, the client is told why.
pub proof fn screenshot_needs_the_windows(
    platform: Platform,
    reason: String,
    first: CaptureAction,
    next: CaptureAction,
)
    requires
        platform != Platform::Other,
        capture_step(platform, CaptureEvent::Requested, first),
        capture_step(platform, CaptureEvent::WindowsListed(Err(reason)), next),
    ensures
        first == CaptureAction::ListWindows,
        next matches CaptureAction::Finish(outcome) && (protocol_form(outcome) matches Err(told)
            && told == internal_failure_error("Failed to enumerate windows: "@ + reason@)),
{
}

/// The window that is captured is the first one of Studio. On macOS it is that same window that is
/// asked whether it is minimized and, unless it says so, captured. Only where no window is one of
/// Studio the client is told that there is none.
pub proof fn captured_window_is_the_first_of_studio(
    platform: Platform,
    titles: Vec<Option<String>>,
    listed: CaptureAction,
    minimized: Option<bool>,
    next: CaptureAction,
)
    requires
        platform != Platform::Other,
        capture_step(platform, CaptureEvent::WindowsListed(Ok(titles)), listed),
    ensures
        match listed {
            CaptureAction::Capture(i) => {
                &&& platform == Platform::Windows
                &&& i < titles@.len()
                &&& is_studio_title(titles@[i as int])
                &&& forall|j: int| 0 <= j < i ==> !is_studio_title(#[trigger] titles@[j])
            },
            CaptureAction::CheckMinimized(i) => {
                &&& platform == Platform::MacOs
                &&& i < titles@.len()
                &&& is_studio_title(titles@[i as int])
                &&& forall|j: int| 0 <= j < i ==> !is_studio_title(#[trigger] titles@[j])
                &&& capture_step(
                    platform,
                    CaptureEvent::MinimizedChecked { index: i, minimized },
                    next,
                ) && minimized != Some(true) ==> next == CaptureAction::Capture(i)
            },
            CaptureAction::Finish(outcome) => {
                &&& forall|j: int|
                    0 <= j < titles@.len() ==> !is_studio_title(#[trigger] titles@[j])
                &&& protocol_form(outcome) matches Err(told)
                &&& told == invalid_request_error(
                    "Roblox Studio window not found. Make sure Roblox Studio is open."@,
                )
            },
            _ => false,
        },
{
    assert(titles@.len() == titles.len());
    if exists|j: int| 0 <= j < titles@.len() && is_studio_title(#[trigger] titles@[j]) {
        let i = choose|i: int|
            {
                &&& 0 <= i < titles@.len()
                &&& is_studio_title(#[trigger] titles@[i])
                &&& forall|j: int| 0 <= j < i ==> !is_studio_title(#[trigger] titles@[j])
                &&& listed == (if platform == Platform::MacOs {
                    CaptureAction::CheckMinimized(i as usize)
                } else {
                    CaptureAction::Capture(i as usize)
                })
            };
        assert(i as usize == i);
    }
}

/// A window that says that it is minimized is not captured, and the client is told why; any other
/// one that was asked is captured itself.
pub proof fn minimized_window_is_not_captured(
    platform: Platform,
    index: usize,
    minimized: Option<bool>,
    action: CaptureAction,
)
    requires
        platform != Platform::Other,
        capture_step(platform, CaptureEvent::MinimizedChecked { index, minimized }, action),
    ensures
        minimized != Some(true) ==> action == CaptureAction::Capture(index),
        minimized == Some(true) ==> (action matches CaptureAction::Finish(outcome) && (
        protocol_form(outcome) matches Err(told) && told == invalid_request_error(
            "Roblox Studio window is minimized. Please restore the window before taking a screenshot — macOS cannot capture minimized windows."@,
        ))),
{
}

/// Where the window cannot be captured the client is told why, on macOS with a hint at the
/// permission that it takes.
pub proof fn failed_capture_is_explained(platform: Platform, reason: String, action: CaptureAction)
    requires
        platform != Platform::Other,
        capture_step(platform, CaptureEvent::Captured(Err(reason)), action),
    ensures
        action matches CaptureAction::Finish(outcome) && (protocol_form(outcome) matches Err(told)
            && told == internal_failure_error(
            if platform == Platform::MacOs {
                "Failed to capture Roblox Studio window: "@ + reason@
                    + ". On macOS, ensure Screen Recording permission is granted in System Settings > Privacy & Security > Screen Recording."@
            } else {
                "Failed to capture Roblox Studio window: "@ + reason@
            },
        )),
{
    reveal_strlit("");
    let text = "Failed to capture Roblox Studio window: "@ + reason@;
    assert(text + ""@ =~= text);
}

/// An encoded picture is shown to the client in base64, as long as its text fits into an
/// allocation; one that could not be encoded is reported with the reason.
pub proof fn encoded_picture_is_shown(png: Result<Seq<u8>, Seq<char>>, action: CaptureAction)
    requires
        answers_shot(action, shot_of_encoding(png)),
    ensures
        match png {
            Ok(bytes) => if (bytes.len() + 2) / 3 * 4 <= isize::MAX {
                action matches CaptureAction::Finish(outcome) && (protocol_form(outcome) matches Ok(
                    shown,
                ) && shown == success_with_image(base64_text(bytes), "image/png"@))
            } else {
                action is Abort
            },
            Err(reason) => action matches CaptureAction::Finish(outcome) && (protocol_form(
                outcome,
            ) matches Err(told) && told == internal_failure_error(
                "Failed to encode screenshot as PNG: "@ + reason,
            )),
        },
{
}

/// The contents of an encoded file, or the text of the error, are those that were returned.
pub proof fn encoding_is_seen_as_it_is(file: Vec<u8>, reason: String)
    ensures
        encoding_view(Ok(file)) == Ok::<Seq<u8>, Seq<char>>(file@),
        encoding_view(Err(reason)) == Err::<Seq<u8>, Seq<char>>(reason@),
{
}

/// A picture within the limit is sent in its own size. Of a larger one both sides are scaled with
/// the same factor, which is that of the longer side.
pub proof fn large_picture_is_scaled_by_its_longer_side(width: u32, height: u32)
    ensures
        width <= 1280 && height <= 1280 ==> sent_size(width, height) == (width, height),
        width > 1280 && width >= height ==> {
            &&& sent_size(width, height).0 == scaled_side(width as nat, width as nat)
            &&& sent_size(width, height).1 == scaled_side(height as nat, width as nat)
        },
        height > 1280 && height >= width ==> {
            &&& sent_size(width, height).0 == scaled_side(width as nat, height as nat)
            &&& sent_size(width, height).1 == scaled_side(height as nat, height as nat)
        },
{
    if width > 1280 && width >= height {
        scaled_side_within_limit(width as nat, width as nat);
        scaled_side_within_limit(height as nat, width as nat);
    }
    if height > 1280 && height >= width {
        scaled_side_within_limit(width as nat, height as nat);
        scaled_side_within_limit(height as nat, height as nat);
    }
}

/// A captured picture is refused if there are too few bytes for it. One within the limit is
/// encoded as it is if there are just as many bytes as it has, and the server gives up if there
/// are more. A larger one is resampled to the size in which it is sent and then encoded, unless
/// that takes more than an allocation can be.
pub proof fn captured_picture_is_encoded(
    width: u32,
    height: u32,
    pixels: Seq<u8>,
    action: CaptureAction,
)
    requires
        answers_shot(action, shot_of_capture(width, height, pixels)),
    ensures
        4 * width > usize::MAX || 4 * (width * height) > pixels.len() ==> (
        action matches CaptureAction::Finish(outcome) && (protocol_form(outcome) matches Err(told)
            && told == internal_failure_error("Failed to create image from capture buffer"@))),
        4 * width <= usize::MAX && 4 * (width * height) <= pixels.len() ==> {
            let (w, h) = sent_size(width, height);
            &&& width <= 1280 && height <= 1280 ==> if pixels.len() == 4 * (width * height) {
                answers_shot(action, shot_of_encoding(png_encoding(width, height, pixels)))
            } else {
                action is Abort
            }
            &&& width > 1280 || height > 1280 ==> if 16 * (width * h) <= isize::MAX {
                answers_shot(
                    action,
                    shot_of_encoding(png_encoding(w, h, resampled(width, height, pixels, w, h))),
                )
            } else {
                action is Abort
            }
        },
{
}

/// On every platform with screenshots the client is shown the picture that was captured: its own
/// pixels if it is within the limit, and otherwise those of the picture scaled down, as a PNG file
/// in base64.
pub proof fn client_is_shown_the_captured_picture(
    platform: Platform,
    image: RawImage,
    png: Seq<u8>,
    action: CaptureAction,
)
    requires
        platform != Platform::Other,
        capture_step(platform, CaptureEvent::Captured(Ok(image)), action),
        4 * image.width <= usize::MAX,
        image.pixels@.len() == 4 * (image.width * image.height),
        (png.len() + 2) / 3 * 4 <= isize::MAX,
        image.width <= 1280 && image.height <= 1280 ==> png_encoding(
            image.width,
            image.height,
            image.pixels@,
        ) == Ok::<Seq<u8>, Seq<char>>(png),
        image.width > 1280 || image.height > 1280 ==> {
            let (w, h) = sent_size(image.width, image.height);
            &&& 16 * (image.width * h) <= isize::MAX
            &&& png_encoding(w, h, resampled(image.width, image.height, image.pixels@, w, h)) == Ok::<
                Seq<u8>,
                Seq<char>,
            >(png)
        },
    ensures
        action matches CaptureAction::Finish(outcome) && (protocol_form(outcome) matches Ok(shown)
            && shown == success_with_image(base64_text(png), "image/png"@)),
{
    captured_picture_is_encoded(image.width, image.height, image.pixels@, action);
    encoded_picture_is_shown(Ok(png), action);
}

/// Every captured picture is answered by its size and its pixels alone, and in the same way on
/// every platform with screenshots.
pub proof fn captured_picture_is_answered(
    platform: Platform,
    image: RawImage,
    action: CaptureAction,
)
    requires
        platform != Platform::Other,
    ensures
        capture_step(platform, CaptureEvent::Captured(Ok(image)), action) == answers_shot(
            action,
            shot_of_capture(image.width, image.height, image.pixels@),
        ),
{
}

} // verus!
