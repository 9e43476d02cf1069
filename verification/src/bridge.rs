//! Decisions of the injected page bridge: when a click or a key chord
//! triggers a native command, one-time installation per page, and the
//! default file name offered when saving a clicked image.

use vstd::prelude::*;
use crate::text::contains_char;
use crate::urlinfo::{parse_url, url_ok, url_path};

verus! {

/// The maximal run of non-`/` characters at the end of `p`.
pub open spec fn nonslash_suffix(p: Seq<char>) -> Seq<char>
    decreases p.len(),
{
    if p.len() == 0 || p.last() == '/' {
        Seq::<char>::empty()
    } else {
        nonslash_suffix(p.drop_last()).push(p.last())
    }
}

/// The last non-empty `/`-separated segment of a path, empty when the path
/// has none.
pub open spec fn last_segment(p: Seq<char>) -> Seq<char>
    decreases p.len(),
{
    if p.len() == 0 {
        Seq::<char>::empty()
    } else if p.last() == '/' {
        last_segment(p.drop_last())
    } else {
        nonslash_suffix(p)
    }
}

/// The save-dialog file name for a URL path: its last non-empty segment
/// (`image` when there is none), with `.png` appended when the segment has
/// no dot.
pub open spec fn filename_for_path(p: Seq<char>) -> Seq<char> {
    let seg = if last_segment(p).len() == 0 {
        "image"@
    } else {
        last_segment(p)
    };
    if seg.contains('.') {
        seg
    } else {
        seg + ".png"@
    }
}

/// The fixed name offered when the image URL cannot be parsed at all.
pub open spec fn fallback_filename() -> Seq<char> {
    "image.png"@
}

/// The name the save dialog is pre-filled with for a clicked image URL.
pub open spec fn derived_filename(u: Seq<char>) -> Seq<char> {
    if url_ok(u) {
        filename_for_path(url_path(u))
    } else {
        fallback_filename()
    }
}

/// The last non-empty `/`-separated segment of `s`.
pub fn last_segment_of(s: &str) -> (r: String)
    ensures
        r@ == last_segment(s@),
{
    let len: usize = s.unicode_len();
    let mut end: usize = len;
    proof {
        assert(s@.take(len as int) =~= s@);
    }
    while end > 0 && s.get_char(end - 1) == '/'
        invariant
            len == s@.len(),
            end <= len,
            last_segment(s@) == last_segment(s@.take(end as int)),
        decreases end,
    {
        proof {
            assert(s@.take(end as int).last() == s@[end - 1]);
            assert(s@.take(end as int).drop_last() =~= s@.take(end - 1));
        }
        end = end - 1;
    }
    if end == 0 {
        proof {
            assert(s@.take(0).len() == 0);
        }
        return String::new();
    }
    proof {
        assert(s@.take(end as int).last() == s@[end - 1]);
        assert(last_segment(s@.take(end as int)) == nonslash_suffix(s@.take(end as int)));
    }
    let mut start: usize = end;
    proof {
        assert(nonslash_suffix(s@.take(end as int)) =~= nonslash_suffix(s@.take(end as int))
            + s@.subrange(end as int, end as int));
    }
    while start > 0 && s.get_char(start - 1) != '/'
        invariant
            len == s@.len(),
            start <= end <= len,
            nonslash_suffix(s@.take(end as int)) == nonslash_suffix(s@.take(start as int))
                + s@.subrange(start as int, end as int),
        decreases start,
    {
        proof {
            let t = s@.take(start as int);
            assert(t.last() == s@[start - 1]);
            assert(t.drop_last() =~= s@.take(start - 1));
            assert(nonslash_suffix(t) == nonslash_suffix(s@.take(start - 1)).push(s@[start - 1]));
            assert(nonslash_suffix(s@.take(start - 1)) + s@.subrange(start - 1, end as int)
                =~= nonslash_suffix(t) + s@.subrange(start as int, end as int));
        }
        start = start - 1;
    }
    proof {
        assert(nonslash_suffix(s@.take(start as int)).len() == 0) by {
            if start > 0 {
                assert(s@.take(start as int).last() == s@[start - 1]);
            }
        }
        assert(nonslash_suffix(s@.take(end as int)) =~= s@.subrange(start as int, end as int));
    }
    let part: &str = s.substring_char(start, end);
    part.to_owned()
}

/// The save-dialog file name for a URL path string.
pub fn filename_for_path_str(path: &str) -> (r: String)
    ensures
        r@ == filename_for_path(path@),
{
    let seg0 = last_segment_of(path);
    let seg: String = if seg0.as_str().unicode_len() == 0 {
        String::from_str("image")
    } else {
        seg0
    };
    if contains_char(seg.as_str(), '.') {
        seg
    } else {
        seg.concat(".png")
    }
}

/// Derives the name the save dialog is pre-filled with from the clicked
/// image's URL; `image.png` when that URL does not parse.
pub fn derive_filename(image_url: &str) -> (r: String)
    ensures
        r@ == derived_filename(image_url@),
{
    match parse_url(image_url) {
        Some(info) => filename_for_path_str(info.path.as_str()),
        None => String::from_str("image.png"),
    }
}

/// When a click is taken over by the bridge: the target is an image and its
/// resolved source URL is non-empty.
pub fn click_intercepts(target_is_image: bool, src: &str) -> (r: bool)
    ensures
        r == (target_is_image && src@.len() > 0),
{
    target_is_image && src.unicode_len() > 0
}

/// When the new-window key chord fires: the key is `n` (either case), Ctrl
/// or Cmd is held together with Shift, and focus is not in an editable
/// region.
pub open spec fn shortcut_fires(key: char, ctrl: bool, meta: bool, shift: bool, editing: bool) -> bool {
    (key == 'n' || key == 'N') && (ctrl || meta) && shift && !editing
}

/// Decides the new-window key chord.
pub fn shortcut_triggers(key: char, ctrl: bool, meta: bool, shift: bool, editing: bool) -> (r: bool)
    ensures
        r == shortcut_fires(key, ctrl, meta, shift, editing),
{
    (key == 'n' || key == 'N') && (ctrl || meta) && shift && !editing
}

/// The per-page marker that keeps the bridge from installing its listeners
/// twice within one page lifetime.
pub struct BridgeGuard {
    pub installed: bool,
}

impl BridgeGuard {
    /// A fresh page: nothing installed yet.
    pub fn new() -> (r: Self)
        ensures
            !r.installed,
    {
        BridgeGuard { installed: false }
    }

    /// True exactly on the first call: the caller installs the listeners
    /// then, and never again for this page.
    pub fn try_install(&mut self) -> (r: bool)
        ensures
            r == !old(self).installed,
            final(self).installed,
    {
        let first = !self.installed;
        self.installed = true;
        first
    }
}

} // verus!
