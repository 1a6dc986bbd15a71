//! Telling the browser by the title of its window.

use crate::text::{chars_of, same_text};
use vstd::prelude::*;
use vstd::string::*;

verus! {

/// What `str::trim` leaves of a text.
pub uninterp spec fn trimmed(s: Seq<char>) -> Seq<char>;

/// `str::trim`. The result depends on the text alone; the contract gives it
/// its name and claims nothing more of it.
#[verifier::external_body]
fn trim_text(s: &str) -> (t: &str)
    ensures
        t@ == trimmed(s@),
{
    s.trim()
}

/// Where the last dash-separated part of the first `end` characters of `s`
/// begins: behind the last dash among them, or at the start.
pub open spec fn part_start(s: Seq<char>, end: int) -> int
    decreases end,
{
    if end <= 0 || end > s.len() {
        0
    } else if s[end - 1] == '-' {
        end
    } else {
        part_start(s, end - 1)
    }
}

/// What follows the last dash of a title; the whole title where it has none.
pub open spec fn last_part(title: Seq<char>) -> Seq<char> {
    title.skip(part_start(title, title.len() as int))
}

/// Whether a window title is one of the browser: what follows its last dash
/// is, space around it apart, `Google Chrome`.
pub open spec fn chrome_title(title: Seq<char>) -> bool {
    trimmed(last_part(title)) == "Google Chrome"@
}

/// Where `part_start` lands: behind a dash or at the start, with no dash
/// after it.
pub proof fn part_start_is_last(s: Seq<char>, end: int)
    requires
        0 <= end <= s.len(),
    ensures
        0 <= part_start(s, end) <= end,
        part_start(s, end) > 0 ==> s[part_start(s, end) - 1] == '-',
        forall|k: int| part_start(s, end) <= k < end ==> s[k] != '-',
    decreases end,
{
    if end > 0 && s[end - 1] != '-' {
        part_start_is_last(s, end - 1);
    }
}

/// Whether a window with this title is the browser.
pub fn is_chrome_title(title: &str) -> (yes: bool)
    ensures
        yes == chrome_title(title@),
{
    let chars = chars_of(title);
    let mut start: usize = chars.len();
    while start > 0 && chars[start - 1] != '-'
        invariant
            start <= chars.len(),
            part_start(chars@, chars.len() as int) == part_start(chars@, start as int),
        decreases start,
    {
        start = start - 1;
    }
    let part = title.substring_char(start, chars.len());
    same_text(trim_text(part), "Google Chrome")
}

} // verus!
