use vstd::prelude::*;

use crate::text::{chars_of, range_eq};

verus! {

/// How the viewer shows the current image when it is opened.
#[derive(PartialEq, Eq, Clone, Copy, Debug, Structural)]
pub enum LoadPlan {
    /// The full image is cached: show it at once.
    UseCachedTexture,
    /// The image failed to load before: show an error.
    ShowError,
    /// Show its thumbnail, if any, and load the full image in the background.
    ShowThumbnailAndLoad,
}

/// The plan for showing an image whose full texture is `cached` or not and that `failed`
/// to load before or not; a cached texture wins over a past failure.
pub fn load_plan(cached: bool, failed: bool) -> (r: LoadPlan)
    ensures
        r == if cached {
            LoadPlan::UseCachedTexture
        } else if failed {
            LoadPlan::ShowError
        } else {
            LoadPlan::ShowThumbnailAndLoad
        },
{
    if cached {
        LoadPlan::UseCachedTexture
    } else if failed {
        LoadPlan::ShowError
    } else {
        LoadPlan::ShowThumbnailAndLoad
    }
}

/// What the viewer does with one finished load.
#[derive(PartialEq, Eq, Clone, Copy, Debug, Structural)]
pub struct LoadReaction {
    /// Keep the texture in the thumbnail cache.
    pub cache_thumbnail: bool,
    /// Keep the texture in the full-image cache, with its pixels for copying.
    pub cache_texture: bool,
    /// Show the texture as the current image.
    pub show: bool,
    /// Fit the zoom to the window, take the image properties, stop the loading indicator
    /// and preload the neighbours.
    pub finish_current: bool,
    /// Remember that the image cannot be loaded.
    pub mark_failed: bool,
    /// Stop the loading indicator and report the error.
    pub report_error: bool,
}

/// The reaction to a finished load that succeeded (`ok`) or not, of a thumbnail or of a
/// full image, asked with priority or not, for the current image or another; the current
/// image may already show a texture. A thumbnail of the current image is shown only when
/// nothing is shown yet; a full image of the current image is always shown.
pub fn load_reaction(
    ok: bool,
    is_thumbnail: bool,
    is_priority: bool,
    is_current: bool,
    has_current_texture: bool,
) -> (r: LoadReaction)
    ensures
        ok ==> r == (LoadReaction {
            cache_thumbnail: is_thumbnail,
            cache_texture: !is_thumbnail,
            show: is_current && (!is_thumbnail || !has_current_texture),
            finish_current: !is_thumbnail && is_current,
            mark_failed: false,
            report_error: false,
        }),
        !ok ==> r == (LoadReaction {
            cache_thumbnail: false,
            cache_texture: false,
            show: false,
            finish_current: false,
            mark_failed: true,
            report_error: is_priority,
        }),
{
    if ok {
        if is_thumbnail {
            LoadReaction {
                cache_thumbnail: true,
                cache_texture: false,
                show: is_current && !has_current_texture,
                finish_current: false,
                mark_failed: false,
                report_error: false,
            }
        } else {
            LoadReaction {
                cache_thumbnail: false,
                cache_texture: true,
                show: is_current,
                finish_current: is_current,
                mark_failed: false,
                report_error: false,
            }
        }
    } else {
        LoadReaction {
            cache_thumbnail: false,
            cache_texture: false,
            show: false,
            finish_current: false,
            mark_failed: true,
            report_error: is_priority,
        }
    }
}

/// How many finished loads the viewer takes in at most in one frame.
pub const MAX_LOAD_RESULTS_PER_FRAME: u32 = 7;

/// The finished loads taken in during one frame.
pub struct LoadBatch {
    /// How many were taken in.
    pub processed: u32,
    /// Whether any was taken in: the window is to be redrawn.
    pub received_any: bool,
    /// Whether the current image was finished: its neighbours are to be preloaded.
    pub trigger_preloads: bool,
}

impl LoadBatch {
    /// No load taken in yet.
    pub fn new() -> (r: Self)
        ensures
            r.processed == 0,
            !r.received_any,
            !r.trigger_preloads,
    {
        LoadBatch { processed: 0, received_any: false, trigger_preloads: false }
    }

    /// Whether another finished load may be taken in during this frame.
    pub fn wants_more(&self) -> (r: bool)
        ensures
            r == (self.processed < MAX_LOAD_RESULTS_PER_FRAME),
    {
        self.processed < MAX_LOAD_RESULTS_PER_FRAME
    }

    /// Counts one finished load, to which the viewer reacted with `reaction`.
    pub fn record(&mut self, reaction: LoadReaction)
        requires
            old(self).processed < MAX_LOAD_RESULTS_PER_FRAME,
        ensures
            final(self).processed == old(self).processed + 1,
            final(self).received_any,
            final(self).trigger_preloads == (old(self).trigger_preloads
                || reaction.finish_current),
    {
        self.processed = self.processed + 1;
        self.received_any = true;
        if reaction.finish_current {
            self.trigger_preloads = true;
        }
    }
}

/// Whether a file was dropped on the viewer should be opened: only images.
pub fn should_open_dropped(is_image: bool) -> (r: bool)
    ensures
        r == is_image,
{
    is_image
}

/// Whether closing the window only hides it to the tray: when the settings ask for it and
/// quitting was not requested.
pub fn close_hides_to_tray(minimize_on_close: bool, allow_quit: bool) -> (r: bool)
    ensures
        r == (minimize_on_close && !allow_quit),
{
    minimize_on_close && !allow_quit
}

/// A character with the ASCII capitals made small.
pub open spec fn ascii_lower_char(c: char) -> char {
    if 'A' <= c <= 'Z' {
        ((c as u32) + 32) as char
    } else {
        c
    }
}

/// A text with its ASCII capitals made small.
pub open spec fn ascii_lower(s: Seq<char>) -> Seq<char> {
    s.map_values(|c: char| ascii_lower_char(c))
}

/// Whether a file extension names an image the viewer decodes: `png`, `jpg` or `jpeg`, in
/// any case.
pub open spec fn is_image_extension_spec(ext: Seq<char>) -> bool {
    let e = ascii_lower(ext);
    e == "png"@ || e == "jpg"@ || e == "jpeg"@
}

/// Whether a file extension names an image the viewer decodes.
pub fn is_image_extension(ext: &str) -> (r: bool)
    ensures
        r == is_image_extension_spec(ext@),
{
    let cs = chars_of(ext);
    let mut lower: Vec<char> = Vec::new();
    let mut i: usize = 0;
    while i < cs.len()
        invariant
            cs@ == ext@,
            i <= cs.len(),
            lower@ == ascii_lower(cs@.take(i as int)),
        decreases cs.len() - i,
    {
        let c = cs[i];
        let l = if 'A' <= c && c <= 'Z' {
            ((c as u8) + 32) as char
        } else {
            c
        };
        assert(l == ascii_lower_char(c));
        lower.push(l);
        assert(ascii_lower(cs@.take(i + 1)) =~= ascii_lower(cs@.take(i as int)).push(l));
        i = i + 1;
    }
    assert(cs@.take(cs@.len() as int) =~= cs@);
    let n = lower.len();
    let r = range_eq(&lower, 0, n, &chars_of("png")) || range_eq(&lower, 0, n, &chars_of("jpg"))
        || range_eq(&lower, 0, n, &chars_of("jpeg"));
    assert(lower@.subrange(0, n as int) =~= lower@);
    r
}

/// Whether `needle` occurs in `hay` at position `i`.
pub open spec fn occurs_at(hay: Seq<char>, needle: Seq<char>, i: int) -> bool {
    0 <= i && i + needle.len() <= hay.len() && hay.subrange(i, i + needle.len()) == needle
}

/// Whether `needle` occurs anywhere in `hay`.
pub open spec fn contains_text(hay: Seq<char>, needle: Seq<char>) -> bool {
    exists|i: int| occurs_at(hay, needle, i)
}

/// Whether `needle` occurs in `hay`.
pub fn text_contains(hay: &Vec<char>, needle: &Vec<char>) -> (r: bool)
    ensures
        r == contains_text(hay@, needle@),
{
    if needle.len() > hay.len() {
        assert forall|i: int| !occurs_at(hay@, needle@, i) by {}
        return false;
    }
    let last = hay.len() - needle.len();
    let mut i: usize = 0;
    while i <= last
        invariant
            last == hay.len() - needle.len(),
            needle.len() <= hay.len(),
            i <= last + 1,
            forall|k: int| 0 <= k < i ==> !occurs_at(hay@, needle@, k),
        decreases last + 1 - i,
    {
        let mut j: usize = 0;
        let mut same = true;
        while j < needle.len()
            invariant
                needle.len() <= hay.len(),
                i <= last,
                last == hay.len() - needle.len(),
                j <= needle.len(),
                same == forall|m: int| 0 <= m < j ==> hay@[i + m] == needle@[m],
            decreases needle.len() - j,
        {
            if hay[i + j] != needle[j] {
                same = false;
            }
            j = j + 1;
        }
        if same {
            assert(hay@.subrange(i as int, i + needle.len()) =~= needle@);
            assert(occurs_at(hay@, needle@, i as int));
            return true;
        }
        assert(hay@.subrange(i as int, i + needle.len()) != needle@) by {
            let m = choose|m: int| 0 <= m < needle.len() && hay@[i + m] != needle@[m];
            assert(hay@.subrange(i as int, i + needle.len())[m] != needle@[m]);
        }
        i = i + 1;
    }
    assert forall|k: int| !occurs_at(hay@, needle@, k) by {
        if 0 <= k && k + needle.len() <= hay.len() {
            assert(k < i);
        }
    }
    false
}

/// The lower-case form of a text, as Rust's `str::to_lowercase` gives it.
pub uninterp spec fn lowercase_of(s: Seq<char>) -> Seq<char>;

/// A text in lower case (`str::to_lowercase`). The result depends on the text alone; the
/// Unicode case mapping itself is left unstated.
#[verifier::external_body]
fn to_lowercase(s: &str) -> (r: String)
    ensures
        r@ == lowercase_of(s@),
{
    s.to_lowercase()
}

/// Whether a lower-case application name belongs to this application's own windows: it
/// names `cloverviewer` or `screenshot`.
pub fn is_own_app_name(lower_name: &str) -> (r: bool)
    ensures
        r == (contains_text(lower_name@, "cloverviewer"@) || contains_text(
            lower_name@,
            "screenshot"@,
        )),
{
    let name = chars_of(lower_name);
    text_contains(&name, &chars_of("cloverviewer")) || text_contains(&name, &chars_of("screenshot"))
}

/// Whether a desktop window is offered as a screenshot target: not minimized, not one of
/// this application's own windows, and more than 50 pixels in both directions.
pub fn is_capturable_window(is_minimized: bool, app_name: &str, width: u32, height: u32) -> (r:
    bool)
    ensures
        r == (!is_minimized && !(contains_text(lowercase_of(app_name@), "cloverviewer"@)
            || contains_text(lowercase_of(app_name@), "screenshot"@)) && width > 50 && height
            > 50),
{
    if is_minimized {
        return false;
    }
    let lower = to_lowercase(app_name);
    if is_own_app_name(lower.as_str()) {
        return false;
    }
    width > 50 && height > 50
}

} // verus!
