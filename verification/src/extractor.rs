//! The direct-media extractor: from the HTML of a player page to the URL of
//! the media itself.
//!
//! Four stages are tried in a fixed order, and the first that yields a URL
//! decides: the `src` of the first `video` element; the `src` of the first
//! `source` element inside that `video` element; in the inline scripts, a
//! `file:"..."` entry whose value names an `.m3u8` or `.mp4` resource; in the
//! inline scripts, the first text that looks like an `http(s)` URL ending in
//! `.m3u8`.

use vstd::prelude::*;
use vstd::string::StringExecFns;
use crate::markup::{
    all_attrs, all_inner_html, first_listed, first_of_list, nested_attrs, select_all_attr,
    select_all_inner_html, select_nested_attr,
};
use crate::pattern::{regex_find, regex_first_match};
use crate::text::{
    chars_of, contains, find, find_from, has_prefix, has_substring, index_of, index_of_from,
    slice_chars, starts_with, string_of,
};

verus! {

/// The selector of the media element.
pub const MEDIA_SELECTOR: &'static str = "video";

/// The selector of a source element inside the media element.
pub const SOURCE_SELECTOR: &'static str = "source";

/// The selector of script blocks.
pub const SCRIPT_SELECTOR: &'static str = "script";

/// The attribute that holds a locator.
pub const SOURCE_ATTR: &'static str = "src";

/// What introduces the media locator in an inline player configuration.
pub const FILE_MARKER: &'static str = "file:\"";

/// What ends a quoted value.
pub const QUOTE: &'static str = "\"";

/// The regular expression of a playlist URL.
pub const PLAYLIST_PATTERN: &'static str = "(https?://[^\"]+\\.m3u8)";

/// A player page URL with a scheme: a URL that begins with neither
/// `http://` nor `https://` gets `https:` put in front.
pub open spec fn normalized_url(url: Seq<char>) -> Seq<char> {
    if starts_with(url, "http://"@) || starts_with(url, "https://"@) {
        url
    } else {
        "https:"@ + url
    }
}

/// The text between the first `file:"` of `script` and the next `"` after
/// it; `None` where the script has no `file:"` or no `"` after it.
pub open spec fn quoted_file_value(script: Seq<char>) -> Option<Seq<char>> {
    match find(script, FILE_MARKER@) {
        None => None,
        Some(start) => {
            let from = start + FILE_MARKER@.len();
            match find_from(script, QUOTE@, from) {
                None => None,
                Some(end) => Some(script.subrange(from, end)),
            }
        },
    }
}

/// Whether `value` names a playlist or a media file.
pub open spec fn names_media(value: Seq<char>) -> bool {
    contains(value, ".m3u8"@) || contains(value, ".mp4"@)
}

/// The media locator that the `file:"..."` entry of `script` holds, if it
/// has such an entry and its value names a playlist or a media file.
pub open spec fn marker_url(script: Seq<char>) -> Option<Seq<char>> {
    match quoted_file_value(script) {
        Some(value) => if names_media(value) {
            Some(value)
        } else {
            None
        },
        None => None,
    }
}

/// The locator of the first script, from index `from` on, whose `file:"..."`
/// entry yields one.
pub open spec fn first_marker_url_from(scripts: Seq<Seq<char>>, from: int) -> Option<Seq<char>>
    decreases scripts.len() - from,
{
    if from < 0 || from >= scripts.len() {
        None
    } else if marker_url(scripts[from]) is Some {
        marker_url(scripts[from])
    } else {
        first_marker_url_from(scripts, from + 1)
    }
}

/// The playlist URL that the pattern finds in the first script, from index
/// `from` on, in which it finds one.
pub open spec fn first_pattern_url_from(scripts: Seq<Seq<char>>, from: int) -> Option<Seq<char>>
    decreases scripts.len() - from,
{
    if from < 0 || from >= scripts.len() {
        None
    } else if regex_first_match(PLAYLIST_PATTERN@, scripts[from]) is Some {
        regex_first_match(PLAYLIST_PATTERN@, scripts[from])
    } else {
        first_pattern_url_from(scripts, from + 1)
    }
}

/// The first of two optional results that is there.
pub open spec fn or_else(first: Option<Seq<char>>, second: Option<Seq<char>>) -> Option<Seq<char>> {
    if first is Some {
        first
    } else {
        second
    }
}

/// What the script stages yield: a `file:"..."` locator from any script
/// before a pattern match from any script.
pub open spec fn script_url(scripts: Seq<Seq<char>>) -> Option<Seq<char>> {
    or_else(first_marker_url_from(scripts, 0), first_pattern_url_from(scripts, 0))
}

/// The direct media URL, from what the four stages found: the earliest
/// stage that found something decides.
pub open spec fn staged_url(
    media_src: Option<Seq<char>>,
    nested_src: Option<Seq<char>>,
    marker: Option<Seq<char>>,
    pattern: Option<Seq<char>>,
) -> Option<Seq<char>> {
    or_else(media_src, or_else(nested_src, or_else(marker, pattern)))
}

/// The direct media URL of the player page `html`.
pub open spec fn page_direct_url(html: Seq<char>) -> Option<Seq<char>> {
    let scripts = all_inner_html(html, SCRIPT_SELECTOR@);
    staged_url(
        first_listed(all_attrs(html, MEDIA_SELECTOR@, SOURCE_ATTR@)),
        first_listed(nested_attrs(html, MEDIA_SELECTOR@, SOURCE_SELECTOR@, SOURCE_ATTR@)),
        first_marker_url_from(scripts, 0),
        first_pattern_url_from(scripts, 0),
    )
}

/// An earlier stage that found a URL decides, whatever the later stages
/// found; a later stage decides only where every earlier one found nothing.
pub proof fn law_earlier_stage_wins(
    media_src: Option<Seq<char>>,
    nested_src: Option<Seq<char>>,
    marker: Option<Seq<char>>,
    pattern: Option<Seq<char>>,
)
    ensures
        media_src is Some ==> staged_url(media_src, nested_src, marker, pattern) == media_src,
        media_src is None && nested_src is Some ==> staged_url(
            media_src,
            nested_src,
            marker,
            pattern,
        ) == nested_src,
        media_src is None && nested_src is None && marker is Some ==> staged_url(
            media_src,
            nested_src,
            marker,
            pattern,
        ) == marker,
        media_src is None && nested_src is None && marker is None ==> staged_url(
            media_src,
            nested_src,
            marker,
            pattern,
        ) == pattern,
        staged_url(media_src, nested_src, marker, pattern) is None <==> (media_src is None
            && nested_src is None && marker is None && pattern is None),
{
}

/// Puts `https:` in front of a player page URL that has no scheme.
pub fn normalize_player_url(url: &str) -> (r: String)
    ensures
        r@ == normalized_url(url@),
{
    let chars = chars_of(url);
    let http = chars_of("http://");
    let https = chars_of("https://");
    if has_prefix(chars.as_slice(), http.as_slice()) || has_prefix(
        chars.as_slice(),
        https.as_slice(),
    ) {
        String::from_str(url)
    } else {
        let mut out = String::from_str("https:");
        out.append(url);
        out
    }
}

/// The media locator in the `file:"..."` entry of one script.
pub fn marker_url_of(script: &str) -> (r: Option<String>)
    ensures
        r.deep_view() == marker_url(script@),
{
    let text = chars_of(script);
    let marker = chars_of(FILE_MARKER);
    let quote = chars_of(QUOTE);
    let start = match index_of(text.as_slice(), marker.as_slice()) {
        Some(start) => start,
        None => {
            return None;
        },
    };
    proof {
        crate::text::lemma_find_from_is_least(text@, marker@, 0);
        assert(start + marker@.len() <= text.len());
    }
    let from: usize = start + marker.len();
    let end = match index_of_from(text.as_slice(), quote.as_slice(), from) {
        Some(end) => end,
        None => {
            return None;
        },
    };
    proof {
        crate::text::lemma_find_from_is_least(text@, quote@, from as int);
    }
    let value = slice_chars(text.as_slice(), from, end);
    let m3u8 = chars_of(".m3u8");
    let mp4 = chars_of(".mp4");
    if has_substring(value.as_slice(), m3u8.as_slice()) || has_substring(
        value.as_slice(),
        mp4.as_slice(),
    ) {
        Some(string_of(value.as_slice()))
    } else {
        None
    }
}

/// The locator of the first script whose `file:"..."` entry yields one.
pub fn first_marker_url(scripts: &Vec<String>) -> (r: Option<String>)
    ensures
        r.deep_view() == first_marker_url_from(scripts.deep_view(), 0),
{
    let mut i: usize = 0;
    while i < scripts.len()
        invariant
            i <= scripts.len(),
            first_marker_url_from(scripts.deep_view(), 0) == first_marker_url_from(
                scripts.deep_view(),
                i as int,
            ),
        decreases scripts.len() - i,
    {
        let found = marker_url_of(scripts[i].as_str());
        if found.is_some() {
            return found;
        }
        i += 1;
    }
    None
}

/// The playlist URL that the pattern finds in the first script in which it
/// finds one.
pub fn first_pattern_url(scripts: &Vec<String>) -> (r: Option<String>)
    ensures
        r.deep_view() == first_pattern_url_from(scripts.deep_view(), 0),
{
    let mut i: usize = 0;
    while i < scripts.len()
        invariant
            i <= scripts.len(),
            first_pattern_url_from(scripts.deep_view(), 0) == first_pattern_url_from(
                scripts.deep_view(),
                i as int,
            ),
        decreases scripts.len() - i,
    {
        let found = regex_find(PLAYLIST_PATTERN, scripts[i].as_str());
        if found.is_some() {
            return found;
        }
        i += 1;
    }
    None
}

/// The direct media URL from what the four stages found, the earliest stage
/// first.
pub fn choose_staged_url(
    media_src: Option<String>,
    nested_src: Option<String>,
    marker: Option<String>,
    pattern: Option<String>,
) -> (r: Option<String>)
    ensures
        r.deep_view() == staged_url(
            media_src.deep_view(),
            nested_src.deep_view(),
            marker.deep_view(),
            pattern.deep_view(),
        ),
{
    if media_src.is_some() {
        media_src
    } else if nested_src.is_some() {
        nested_src
    } else if marker.is_some() {
        marker
    } else {
        pattern
    }
}

/// What the script stages yield for the inline scripts of a page, in
/// document order.
pub fn script_direct_url(scripts: &Vec<String>) -> (r: Option<String>)
    ensures
        r.deep_view() == script_url(scripts.deep_view()),
{
    let marker = first_marker_url(scripts);
    if marker.is_some() {
        return marker;
    }
    first_pattern_url(scripts)
}

/// The direct media URL of a fetched player page. A later stage is tried
/// only after every earlier one has found nothing.
pub fn extract_direct_url(html: &str) -> (r: Option<String>)
    ensures
        r.deep_view() == page_direct_url(html@),
{
    let media_src = first_of_list(select_all_attr(html, MEDIA_SELECTOR, SOURCE_ATTR));
    if media_src.is_some() {
        return media_src;
    }
    let nested_src = first_of_list(
        select_nested_attr(html, MEDIA_SELECTOR, SOURCE_SELECTOR, SOURCE_ATTR),
    );
    if nested_src.is_some() {
        return nested_src;
    }
    let scripts = select_all_inner_html(html, SCRIPT_SELECTOR);
    script_direct_url(&scripts)
}

} // verus!
