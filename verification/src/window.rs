//! Planning a window-open request: allow-list validation of the target URL
//! and allocation of a process-unique window label. The caller creates the
//! actual window exactly as a returned plan directs.

use vstd::prelude::*;
use crate::text::{
    dec_rep, is_blank_chars, lemma_concat_injective, lemma_dec_rep_injective, str_eq, u64_to_dec,
};
use crate::urlinfo::{parse_url, url_host, url_ok};

verus! {

/// The one host a supplied target URL may point at.
pub open spec fn allowed_host_chars() -> Seq<char> {
    "app.example.com"@
}

/// The URL a window opens at when no target is supplied.
pub open spec fn default_url_chars() -> Seq<char> {
    "https://www.example.org/"@
}

/// The allow-listed host, as a value.
pub fn allowed_host() -> (r: String)
    ensures
        r@ == allowed_host_chars(),
{
    String::from_str("app.example.com")
}

/// The default window URL, as a value.
pub fn default_url() -> (r: String)
    ensures
        r@ == default_url_chars(),
{
    String::from_str("https://www.example.org/")
}

/// Everything that can go wrong while opening a window.
#[derive(Debug)]
pub enum WindowError {
    /// A non-blank target URL was supplied but does not parse.
    InvalidUrl,
    /// The target URL's host is not the allowed one; carries that host,
    /// or the empty string when the URL has no host at all.
    BlockedDomain(String),
    /// The runtime failed to create the window; carries the error text.
    CreateFailed(String),
}

/// The host of the target, for the blocked-domain report: the URL's host,
/// or empty when it has none.
pub open spec fn reported_host(u: Seq<char>) -> Seq<char> {
    match url_host(u) {
        Some(h) => h,
        None => Seq::<char>::empty(),
    }
}

/// The characters of an optional target string.
pub open spec fn opt_chars(target: Option<&str>) -> Option<Seq<char>> {
    match target {
        None => None,
        Some(u) => Some(u@),
    }
}

/// When a window-open target passes: there is no URL, or a blank one (the
/// default URL is then used unconditionally), or a URL that parses and whose
/// host equals the allowed host exactly.
pub open spec fn target_accepted(target: Option<Seq<char>>) -> bool {
    match target {
        None => true,
        Some(u) => is_blank_chars(u) || (url_ok(u) && url_host(u) == Some(allowed_host_chars())),
    }
}

/// The URL an accepted window-open request navigates to: the supplied URL
/// itself, or the hardcoded default when none (or a blank one) was supplied.
pub open spec fn accepted_url(target: Option<Seq<char>>) -> Seq<char> {
    match target {
        None => default_url_chars(),
        Some(u) => if is_blank_chars(u) {
            default_url_chars()
        } else {
            u
        },
    }
}

/// Validates a window-open target. A non-blank URL must parse and its host
/// must equal the single allowed host exactly, else the request fails
/// closed. No window is part of an error outcome.
pub fn resolve_window_target(target: Option<&str>) -> (r: Result<String, WindowError>)
    ensures
        r is Ok <==> target_accepted(opt_chars(target)),
        r is Ok ==> r->Ok_0@ == accepted_url(opt_chars(target)),
        (match target {
            None => true,
            Some(u) => (!is_blank_chars(u@) && !url_ok(u@) ==> r is Err && r->Err_0 is InvalidUrl)
                && (!is_blank_chars(u@) && url_ok(u@) && url_host(u@) != Some(allowed_host_chars())
                ==> r is Err && r->Err_0 is BlockedDomain && r->Err_0->BlockedDomain_0@
                == reported_host(u@)),
        }),
{
    match target {
        None => Ok(default_url()),
        Some(u) => {
            if crate::text::is_blank(u) {
                return Ok(default_url());
            }
            match parse_url(u) {
                None => Err(WindowError::InvalidUrl),
                Some(info) => match info.host {
                    Some(h) => {
                        if str_eq(h.as_str(), "app.example.com") {
                            proof {
                                assert(url_host(u@) == Some(allowed_host_chars()));
                            }
                            Ok(u.to_owned())
                        } else {
                            Err(WindowError::BlockedDomain(h))
                        }
                    },
                    None => Err(WindowError::BlockedDomain(String::new())),
                },
            }
        },
    }
}

/// The label of the `n`-th window.
pub open spec fn label_chars(n: nat) -> Seq<char> {
    "win-"@ + dec_rep(n)
}

/// The process-wide source of window labels, counting up from 1.
pub struct LabelCounter {
    pub next: u64,
}

impl LabelCounter {
    /// A fresh counter; the first window is `win-1`.
    pub fn new() -> (r: Self)
        ensures
            r.next == 1,
    {
        LabelCounter { next: 1 }
    }

    /// Takes the next label and steps the counter, so that no later call can
    /// ever see the same number again.
    pub fn fresh_label(&mut self) -> (r: String)
        requires
            old(self).next < u64::MAX,
        ensures
            final(self).next == old(self).next + 1,
            r@ == label_chars(old(self).next as nat),
    {
        let n = self.next;
        self.next = n + 1;
        String::from_str("win-").concat(u64_to_dec(n).as_str())
    }
}

/// The fixed title of every spawned window.
pub open spec fn window_title_chars() -> Seq<char> {
    "Web Shell"@
}

pub const WINDOW_WIDTH: u32 = 1200;

pub const WINDOW_HEIGHT: u32 = 800;

/// Everything the runtime needs to create one window: a process-unique
/// label, the validated target URL, and the fixed presentation.
pub struct WindowPlan {
    pub label: String,
    pub url: String,
    pub title: String,
    pub width: u32,
    pub height: u32,
    /// The window is centered on screen.
    pub centered: bool,
}

/// The whole window-open command: validates the target, then allocates the
/// next label and lays out the window. On rejection the counter is
/// untouched, so no label is spent; on success it steps, so the label can
/// never be produced again.
pub fn plan_open_window(counter: &mut LabelCounter, target: Option<&str>) -> (r: Result<
    WindowPlan,
    WindowError,
>)
    requires
        old(counter).next < u64::MAX,
    ensures
        r is Ok <==> target_accepted(opt_chars(target)),
        r is Err ==> *final(counter) == *old(counter),
        r is Ok ==> final(counter).next == old(counter).next + 1,
        r is Ok ==> r->Ok_0.label@ == label_chars(old(counter).next as nat),
        r is Ok ==> r->Ok_0.url@ == accepted_url(opt_chars(target)),
        r is Ok ==> r->Ok_0.title@ == window_title_chars() && r->Ok_0.width == WINDOW_WIDTH
            && r->Ok_0.height == WINDOW_HEIGHT && r->Ok_0.centered,
        (match target {
            None => true,
            Some(u) => (!is_blank_chars(u@) && !url_ok(u@) ==> r is Err && r->Err_0 is InvalidUrl)
                && (!is_blank_chars(u@) && url_ok(u@) && url_host(u@) != Some(allowed_host_chars())
                ==> r is Err && r->Err_0 is BlockedDomain && r->Err_0->BlockedDomain_0@
                == reported_host(u@)),
        }),
{
    let url = match resolve_window_target(target) {
        Ok(url) => url,
        Err(e) => {
            return Err(e);
        },
    };
    let label = counter.fresh_label();
    Ok(
        WindowPlan {
            label,
            url,
            title: String::from_str("Web Shell"),
            width: WINDOW_WIDTH,
            height: WINDOW_HEIGHT,
            centered: true,
        },
    )
}

/// Labels never collide: windows numbered differently are labelled
/// differently, however the allocations interleave.
pub proof fn lemma_labels_distinct(a: nat, b: nat)
    requires
        a != b,
    ensures
        label_chars(a) != label_chars(b),
{
    if label_chars(a) == label_chars(b) {
        lemma_concat_injective("win-"@, dec_rep(a), dec_rep(b));
        lemma_dec_rep_injective(a, b);
    }
}

/// The text of each window error.
pub open spec fn window_message_chars(e: WindowError) -> Seq<char> {
    match e {
        WindowError::InvalidUrl => "invalid url"@,
        WindowError::BlockedDomain(h) => "blocked domain: "@ + h@,
        WindowError::CreateFailed(s) => "failed to create window: "@ + s@,
    }
}

impl WindowError {
    /// The descriptive string surfaced across the bridge.
    pub fn message(&self) -> (r: String)
        ensures
            r@ == window_message_chars(*self),
    {
        match self {
            WindowError::InvalidUrl => String::from_str("invalid url"),
            WindowError::BlockedDomain(h) => String::from_str("blocked domain: ").concat(
                h.as_str(),
            ),
            WindowError::CreateFailed(s) => String::from_str("failed to create window: ").concat(
                s.as_str(),
            ),
        }
    }
}

} // verus!
